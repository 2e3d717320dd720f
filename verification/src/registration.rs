//! Taking a proxy in once its connection stands: its id, the order in which the game world
//! learns of it, and the task that writes to it.
use vstd::prelude::*;

verus! {

/// Hands out proxy ids, starting from zero.
#[derive(Debug)]
pub struct ProxyIds {
    next: u64,
}

/// The id that is handed out after `count` ids, where `first` is the first one.
pub open spec fn nth_id(first: u64, count: nat) -> u64 {
    ((first + count) % 0x1_0000_0000_0000_0000) as u64
}

impl ProxyIds {
    /// The id that is handed out next.
    pub closed spec fn upcoming(self) -> u64 {
        self.next
    }

    /// No id has been handed out yet.
    pub fn new() -> (ids: Self)
        ensures
            ids.upcoming() == 0,
    {
        ProxyIds { next: 0 }
    }

    /// Hands out an id. After the largest one the ids start again from zero.
    pub fn claim(&mut self) -> (id: u64)
        ensures
            id == old(self).upcoming(),
            final(self).upcoming() == nth_id(old(self).upcoming(), 1),
    {
        let id: u64 = self.next;
        self.next = id.wrapping_add(1);
        id
    }
}

/// Each id follows from the one before, so that `count` claims after `first` was handed out
/// the id is `nth_id(first, count)`.
pub proof fn ids_follow_each_other(first: u64, count: nat)
    ensures
        nth_id(first, 0) == first,
        nth_id(nth_id(first, count), 1) == nth_id(first, count + 1),
{
    let width = 0x1_0000_0000_0000_0000int;
    assert(((first + count) % width + 1) % width == (first + count + 1) % width) by {
        vstd::arithmetic::div_mod::lemma_add_mod_noop(first + count, 1, width);
    }
}

/// Two ids differ as long as fewer than two to the power of sixty-four claims lie between
/// them.
pub proof fn ids_are_distinct(first: u64, earlier: nat, later: nat)
    requires
        earlier < later < earlier + 0x1_0000_0000_0000_0000,
    ensures
        nth_id(first, earlier) != nth_id(first, later),
{
    let width = 0x1_0000_0000_0000_0000int;
    let a = first + earlier;
    let b = first + later;
    vstd::arithmetic::div_mod::lemma_fundamental_div_mod(a, width);
    vstd::arithmetic::div_mod::lemma_fundamental_div_mod(b, width);
    if a % width == b % width {
        assert(b - a == width * (b / width) - width * (a / width));
        assert(width * (b / width) - width * (a / width) == width * (b / width - a / width))
            by (nonlinear_arith);
        let gap = b / width - a / width;
        assert(gap <= 0 || gap >= 1);
        assert(false);
    }
}

/// What the game world is told about a proxy.
#[derive(Clone, Copy, Debug, PartialEq, Eq, Structural)]
pub enum RegistrationCommand {
    /// Send what is for this proxy's players to this proxy.
    AddProxy { proxy_id: u64 },
    /// Tell the proxy about all packet channels that exist at the moment.
    AnnounceChannels { proxy_id: u64 },
    /// Send nothing to this proxy any more, then close its queue.
    RemoveProxy { proxy_id: u64 },
}

/// What the game world is told when a proxy arrives, in this order: first where to send,
/// then which channels there are.
pub fn registration_commands(proxy_id: u64) -> (commands: Vec<RegistrationCommand>)
    ensures
        commands@ == seq![
            RegistrationCommand::AddProxy { proxy_id },
            RegistrationCommand::AnnounceChannels { proxy_id },
        ],
{
    let mut commands: Vec<RegistrationCommand> = Vec::new();
    commands.push(RegistrationCommand::AddProxy { proxy_id });
    commands.push(RegistrationCommand::AnnounceChannels { proxy_id });
    commands
}

/// A packet channel that exists in the game world.
#[derive(Clone, Copy, Debug, PartialEq, Eq, Structural)]
pub struct ExistingChannel {
    /// The id by which proxies know the channel.
    pub channel_id: u32,
    /// The id by which players know the entity that stands for the channel.
    pub minecraft_id: i32,
}

/// What a proxy is told about a packet channel.
#[derive(Clone, Copy, Debug, PartialEq, Eq, Structural)]
pub struct ChannelAnnouncement {
    /// The id by which the proxy is to know the channel.
    pub channel_id: u32,
    /// The one entity that the packet for unsubscribing from the channel destroys.
    pub destroyed_entity: i32,
}

/// What a proxy is told about a channel: players who unsubscribe from it no longer see the entity
/// that stands for it.
pub open spec fn announcement_of(channel: ExistingChannel) -> ChannelAnnouncement {
    ChannelAnnouncement {
        channel_id: channel.channel_id,
        destroyed_entity: channel.minecraft_id,
    }
}

/// What a proxy is told about the packet channels that exist: one announcement for each, in
/// their order.
pub fn channel_announcements(channels: &[ExistingChannel]) -> (announcements: Vec<
    ChannelAnnouncement,
>)
    ensures
        announcements@ == channels@.map_values(|channel: ExistingChannel| announcement_of(channel)),
{
    let mut announcements: Vec<ChannelAnnouncement> = Vec::new();
    let mut i: usize = 0;
    while i < channels.len()
        invariant
            i <= channels.len(),
            announcements@.len() == i,
            forall|j: int|
                0 <= j < i ==> #[trigger] announcements@[j] == announcement_of(channels@[j]),
        decreases channels.len() - i,
    {
        announcements.push(
            ChannelAnnouncement {
                channel_id: channels[i].channel_id,
                destroyed_entity: channels[i].minecraft_id,
            },
        );
        i = i + 1;
    }
    announcements
}

/// What can happen to the task that writes to a proxy.
#[derive(Debug, PartialEq, Eq)]
pub enum WriterEvent {
    /// Bytes for the proxy were queued.
    Queued(Vec<u8>),
    /// Bytes were written to the proxy.
    Written,
    /// Bytes could not be written to the proxy.
    WriteFailed,
    /// Nothing will be queued any more.
    QueueClosed,
}

/// What the task that writes to a proxy does next.
#[derive(Debug, PartialEq, Eq)]
pub enum WriterAction {
    /// Write all of these bytes.
    Write(Vec<u8>),
    /// Wait for the queue.
    Await,
    /// Have the command carried out and end.
    Finish(RegistrationCommand),
    /// Nothing: the task has ended already.
    Ended,
}

/// What the task that writes to a proxy does after an event: it writes what is queued until a
/// write fails or the queue is closed, and then the proxy is removed. Once the task has ended,
/// it does nothing more.
pub open spec fn writer_action(proxy_id: u64, ended: bool, event: WriterEvent) -> WriterAction {
    if ended {
        WriterAction::Ended
    } else {
        match event {
            WriterEvent::Queued(bytes) => WriterAction::Write(bytes),
            WriterEvent::Written => WriterAction::Await,
            WriterEvent::WriteFailed | WriterEvent::QueueClosed => WriterAction::Finish(
                RegistrationCommand::RemoveProxy { proxy_id },
            ),
        }
    }
}

/// Whether the task that writes to a proxy has ended after an event.
pub open spec fn writer_ended_after(ended: bool, event: WriterEvent) -> bool {
    ended || event is WriteFailed || event is QueueClosed
}

/// The task that writes to a proxy.
#[derive(Debug)]
pub struct ProxyWriter {
    proxy_id: u64,
    ended: bool,
}

impl ProxyWriter {
    /// The proxy that is written to.
    pub closed spec fn proxy(self) -> u64 {
        self.proxy_id
    }

    /// Whether the task has ended.
    pub closed spec fn ended(self) -> bool {
        self.ended
    }

    /// A task that writes to a proxy.
    pub fn new(proxy_id: u64) -> (writer: Self)
        ensures
            writer.proxy() == proxy_id,
            !writer.ended(),
    {
        ProxyWriter { proxy_id, ended: false }
    }

    /// Takes in what happened and says what to do.
    pub fn step(&mut self, event: WriterEvent) -> (action: WriterAction)
        ensures
            final(self).proxy() == old(self).proxy(),
            final(self).ended() == writer_ended_after(old(self).ended(), event),
            action == writer_action(old(self).proxy(), old(self).ended(), event),
    {
        if self.ended {
            return WriterAction::Ended;
        }
        let proxy_id: u64 = self.proxy_id;
        match event {
            WriterEvent::Queued(bytes) => WriterAction::Write(bytes),
            WriterEvent::Written => WriterAction::Await,
            WriterEvent::WriteFailed => {
                self.ended = true;
                WriterAction::Finish(RegistrationCommand::RemoveProxy { proxy_id })
            },
            WriterEvent::QueueClosed => {
                self.ended = true;
                WriterAction::Finish(RegistrationCommand::RemoveProxy { proxy_id })
            },
        }
    }
}

/// A proxy is removed once at most: the removal ends the task that writes to it, and then
/// nothing more is done.
pub proof fn proxy_is_removed_once_at_most(
    proxy_id: u64,
    ended: bool,
    event: WriterEvent,
    later: WriterEvent,
)
    ensures
        writer_action(proxy_id, ended, event) matches WriterAction::Finish(command) ==> command == (
        RegistrationCommand::RemoveProxy { proxy_id }) && writer_ended_after(ended, event),
        writer_ended_after(ended, event) ==> writer_action(
            proxy_id,
            writer_ended_after(ended, event),
            later,
        ) is Ended,
{
}

/// The id that follows an id is the next larger number, and zero follows the largest; the id
/// after `count` more is that much larger, as long as there are that many.
pub proof fn ids_count_up(first: u64, count: nat)
    ensures
        first < u64::MAX ==> nth_id(first, 1) == first + 1,
        nth_id(u64::MAX, 1) == 0,
        first + count <= u64::MAX ==> nth_id(first, count) == first + count,
{
}

/// What is announced of a channel is its own id and its own entity, whatever they are.
pub proof fn announcements_name_their_channel(channel_id: u32, minecraft_id: i32)
    ensures
        announcement_of(ExistingChannel { channel_id, minecraft_id }).channel_id == channel_id,
        announcement_of(ExistingChannel { channel_id, minecraft_id }).destroyed_entity
            == minecraft_id,
{
}

/// All bytes that are queued are written, unchanged, whatever they are, until the task ends; it
/// ends exactly where a write fails or the queue is closed, and then its own proxy is removed.
pub proof fn queued_bytes_are_written_unchanged(proxy_id: u64, bytes: Vec<u8>, event: WriterEvent)
    ensures
        writer_action(proxy_id, false, WriterEvent::Queued(bytes)) == WriterAction::Write(bytes),
        writer_action(proxy_id, false, WriterEvent::Written) is Await,
        writer_action(proxy_id, false, WriterEvent::WriteFailed) == WriterAction::Finish(
            RegistrationCommand::RemoveProxy { proxy_id },
        ),
        writer_action(proxy_id, false, WriterEvent::QueueClosed) == WriterAction::Finish(
            RegistrationCommand::RemoveProxy { proxy_id },
        ),
        writer_action(proxy_id, true, event) is Ended,
        writer_ended_after(false, event) <==> event is WriteFailed || event is QueueClosed,
        writer_ended_after(true, event),
{
}

/// Every channel is announced once, at its own place, with its own id and its own entity.
pub proof fn every_channel_is_announced_at_its_place(
    channels: &[ExistingChannel],
    announcements: Vec<ChannelAnnouncement>,
    place: int,
)
    requires
        call_ensures(channel_announcements, (channels,), announcements),
        0 <= place < channels@.len(),
    ensures
        announcements@.len() == channels@.len(),
        announcements@[place].channel_id == channels@[place].channel_id,
        announcements@[place].destroyed_entity == channels@[place].minecraft_id,
{
}

} // verus!
