//! Input events of a terminal, and the versioned slot through which they are
//! handed from the event reactor to the application.

use crate::coord::Coord2;
use vstd::prelude::*;

verus! {

/// Epoch integer for the channel's versions.
pub type Epoch = u128;

/// A supported pressed key.
#[derive(Debug, Clone, Copy, PartialEq, Eq, Structural, Hash)]
pub enum Key {
    /// A regular, unicode character. E.g. `Key::Char('a')` or
    /// `Key::Char('ç')`.
    Char(char),
    /// The up arrow key.
    Up,
    /// The down arrow key.
    Down,
    /// The left arrow key.
    Left,
    /// The right arrow key.
    Right,
    /// The escape key.
    Esc,
    /// The enter key. Preferred over `Char('\n')`.
    Enter,
    /// The backspace key
    Backspace,
}

/// An event fired by a key pressed by the user.
#[derive(Debug, Clone, Copy, PartialEq, Eq, Structural, Hash)]
pub struct KeyEvent {
    /// Key pressed by the user.
    pub main_key: Key,
    /// Whether control is modifiying the key (pressed).
    pub ctrl: bool,
    /// Whether alt is modifiying the key (pressed).
    pub alt: bool,
    /// Whether shift is modifiying the key (pressed).
    pub shift: bool,
}

impl KeyEvent {
    /// A dummy key event, with dummy data.
    pub(crate) fn dummy() -> (r: Self)
        ensures
            r == (KeyEvent { main_key: Key::Esc, ctrl: false, alt: false, shift: false }),
    {
        Self { main_key: Key::Esc, ctrl: false, alt: false, shift: false }
    }

    /// Whether this is the given key pressed with no modifier.
    pub open spec fn is_plain(self, key: Key) -> bool {
        self.main_key == key && !self.ctrl && !self.alt && !self.shift
    }
}

impl From<Key> for KeyEvent {
    /// The key pressed with no modifier.
    fn from(main_key: Key) -> (r: Self) {
        Self { main_key, ctrl: false, alt: false, shift: false }
    }
}

impl vstd::std_specs::convert::FromSpecImpl<Key> for KeyEvent {
    open spec fn obeys_from_spec() -> bool {
        true
    }

    open spec fn from_spec(main_key: Key) -> Self {
        KeyEvent { main_key, ctrl: false, alt: false, shift: false }
    }
}

/// An event fired by a resize of the screen.
#[derive(Debug, Clone, Copy, PartialEq, Eq, Structural)]
pub struct ResizeEvent {
    /// New dimensions of the screen. If set to `None`, then the screen was
    /// resized to an invalid size, and the event reactor is taking care of
    /// this.
    pub size: Option<Coord2>,
}

impl ResizeEvent {
    /// A dummy resize event, with dummy data.
    pub(crate) fn dummy() -> (r: Self)
        ensures
            r == (ResizeEvent { size: None }),
    {
        Self { size: None }
    }
}

/// A generic event type.
#[derive(Debug, Clone, Copy, PartialEq, Eq, Structural)]
pub enum Event {
    /// User resized screen.
    Resize(ResizeEvent),
    /// User pressed key.
    Key(KeyEvent),
}

impl From<ResizeEvent> for Event {
    fn from(event: ResizeEvent) -> (r: Self) {
        Event::Resize(event)
    }
}

impl vstd::std_specs::convert::FromSpecImpl<ResizeEvent> for Event {
    open spec fn obeys_from_spec() -> bool {
        true
    }

    open spec fn from_spec(event: ResizeEvent) -> Self {
        Event::Resize(event)
    }
}

impl From<KeyEvent> for Event {
    fn from(event: KeyEvent) -> (r: Self) {
        Event::Key(event)
    }
}

impl vstd::std_specs::convert::FromSpecImpl<KeyEvent> for Event {
    open spec fn obeys_from_spec() -> bool {
        true
    }

    open spec fn from_spec(event: KeyEvent) -> Self {
        Event::Key(event)
    }
}

/// Snapshot of an event with a given epoch.
#[derive(Debug, Clone, Copy, PartialEq, Eq, Structural)]
pub struct Snapshot<E> {
    /// The event of this snapshot.
    pub event: E,
    /// Epoch count of this snapshot.
    pub epoch: Epoch,
}

/// The channel's data: the last key event and the last resize event, each
/// stamped with the epoch at which it was written.
#[derive(Debug, PartialEq, Eq, Structural)]
pub struct ChannelData {
    /// Last key event's snapshot.
    pub key: Snapshot<KeyEvent>,
    /// Last resize event's snapshot.
    pub resize: Snapshot<ResizeEvent>,
}

/// The larger of two epochs.
pub open spec fn max_epoch(a: Epoch, b: Epoch) -> Epoch {
    if a >= b {
        a
    } else {
        b
    }
}

impl ChannelData {
    /// The last epoch of the channel.
    pub open spec fn epoch_spec(&self) -> Epoch {
        max_epoch(self.key.epoch, self.resize.epoch)
    }

    /// The latest event newer than `epoch`, if any, the resize event taking
    /// precedence over the key event, with the channel's epoch: a reader
    /// that goes on from there skips what the event it got shadows.
    pub open spec fn read_spec(&self, epoch: Epoch) -> Option<(Epoch, Event)> {
        if self.resize.epoch > epoch {
            Some((self.epoch_spec(), Event::Resize(self.resize.event)))
        } else if self.key.epoch > epoch {
            Some((self.epoch_spec(), Event::Key(self.key.event)))
        } else {
            None
        }
    }

    /// The channel after `event` is written into it.
    pub open spec fn written(&self, event: Event) -> ChannelData {
        let epoch = (self.epoch_spec() + 1) as Epoch;
        match event {
            Event::Key(event) => ChannelData {
                key: Snapshot { epoch, event },
                resize: self.resize,
            },
            Event::Resize(event) => ChannelData {
                key: self.key,
                resize: Snapshot { epoch, event },
            },
        }
    }

    /// Selects maximum last epoch.
    pub fn epoch(&self) -> (r: Epoch)
        ensures
            r == self.epoch_spec(),
    {
        if self.key.epoch >= self.resize.epoch {
            self.key.epoch
        } else {
            self.resize.epoch
        }
    }

    /// Reads the correct lastest event, given the epoch where the caller is.
    /// Uses the adequate event, i.e. resize event has precedence, and gives
    /// the channel's epoch, so that a key that a pending resize shadows is
    /// not read after it.
    pub fn read(&self, epoch: Epoch) -> (r: Option<(Epoch, Event)>)
        ensures
            r == self.read_spec(epoch),
    {
        if self.resize.epoch > epoch {
            Some((self.epoch(), Event::Resize(self.resize.event)))
        } else if self.key.epoch > epoch {
            Some((self.epoch(), Event::Key(self.key.event)))
        } else {
            None
        }
    }

    /// Writes an event into the channel. Advances current epoch.
    pub fn write(&mut self, event: Event)
        requires
            old(self).epoch_spec() < Epoch::MAX,
        ensures
            *final(self) == old(self).written(event),
            final(self).epoch_spec() == old(self).epoch_spec() + 1,
            final(self).read_spec(old(self).epoch_spec()) == Some(
                ((old(self).epoch_spec() + 1) as Epoch, event),
            ),
    {
        let epoch = self.epoch();

        match event {
            Event::Key(event) => {
                self.key = Snapshot { epoch: epoch + 1, event };
            },
            Event::Resize(event) => {
                self.resize = Snapshot { epoch: epoch + 1, event };
            },
        }
    }
}

impl Default for ChannelData {
    /// Both slots hold a dummy event at epoch zero.
    fn default() -> (r: Self)
        ensures
            r.key == (Snapshot { event: KeyEvent::dummy_spec(), epoch: 0 }),
            r.resize == (Snapshot { event: ResizeEvent { size: None }, epoch: 0 }),
            r.epoch_spec() == 0,
    {
        Self {
            key: Snapshot { event: KeyEvent::dummy(), epoch: 0 },
            resize: Snapshot { event: ResizeEvent::dummy(), epoch: 0 },
        }
    }
}

impl KeyEvent {
    /// The dummy key event: escape with no modifier.
    pub open spec fn dummy_spec() -> KeyEvent {
        KeyEvent { main_key: Key::Esc, ctrl: false, alt: false, shift: false }
    }
}

/// Nothing is newer than the current epoch of the channel.
pub proof fn lemma_read_at_current_epoch(data: ChannelData)
    ensures
        data.read_spec(data.epoch_spec()) is None,
{
}

/// A reader at the epoch before a write reads exactly the written event, at
/// the next epoch; a reader at the epoch after the write reads nothing.
pub proof fn lemma_read_after_write(data: ChannelData, event: Event)
    requires
        data.epoch_spec() < Epoch::MAX,
    ensures
        data.written(event).read_spec(data.epoch_spec()) == Some(
            ((data.epoch_spec() + 1) as Epoch, event),
        ),
        data.written(event).epoch_spec() == data.epoch_spec() + 1,
        data.written(event).read_spec(data.written(event).epoch_spec()) is None,
{
}

/// A resize event newer than the reader's epoch is always read before a key
/// event, whichever of the two was written last, and a key that it shadows
/// is not read after it.
pub proof fn lemma_resize_precedence(data: ChannelData, epoch: Epoch)
    requires
        data.resize.epoch > epoch,
    ensures
        data.read_spec(epoch) == Some((data.epoch_spec(), Event::Resize(data.resize.event))),
        data.read_spec(data.epoch_spec()) is None,
{
}

/// A reader obtains the channel's epoch, which is newer than the reader's
/// own, and then reads nothing until the next write.
pub proof fn lemma_read_epoch_bounds(data: ChannelData, epoch: Epoch)
    ensures
        data.read_spec(epoch) matches Some((new_epoch, _)) ==> epoch < new_epoch
            && new_epoch == data.epoch_spec() && data.read_spec(new_epoch) is None,
{
}

} // verus!
