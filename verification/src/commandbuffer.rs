use std::collections::VecDeque;
use vstd::prelude::*;

verus! {

/// A discrete control command. Commands are produced by input translation and
/// consumed, one by one and in arrival order, by the tick loop.
#[derive(Clone, Copy, Debug, PartialEq, Eq, Structural)]
pub enum Command {
    Play,
    Pause,
    PlayForward,
    PlayReverse,
    DebugDraw,
    Quit,
}

/// An unbounded first-in first-out queue of commands.
///
/// Its view is the sequence of waiting commands, oldest first.
pub struct CommandBuffer {
    commands: VecDeque<Command>,
}

impl View for CommandBuffer {
    type V = Seq<Command>;

    closed spec fn view(&self) -> Seq<Command> {
        self.commands@
    }
}

impl CommandBuffer {
    /// The queue contents after `command` has been appended to `queue`.
    pub open spec fn enqueued(queue: Seq<Command>, command: Command) -> Seq<Command> {
        queue.push(command)
    }

    /// The command that the next dequeue hands out, if any.
    pub open spec fn front(queue: Seq<Command>) -> Option<Command> {
        if queue.len() == 0 {
            None
        } else {
            Some(queue[0])
        }
    }

    /// The queue contents after one dequeue: the head is gone, an empty queue stays empty.
    pub open spec fn dequeued(queue: Seq<Command>) -> Seq<Command> {
        if queue.len() == 0 {
            queue
        } else {
            queue.skip(1)
        }
    }

    /// The queue contents after every command of `commands` has been appended to
    /// `queue`, first to last.
    pub open spec fn enqueued_all(queue: Seq<Command>, commands: Seq<Command>) -> Seq<Command>
        decreases commands.len(),
    {
        if commands.len() == 0 {
            queue
        } else {
            Self::enqueued_all(Self::enqueued(queue, commands[0]), commands.skip(1))
        }
    }

    /// The queue contents after `count` dequeues.
    pub open spec fn dequeued_times(queue: Seq<Command>, count: nat) -> Seq<Command>
        decreases count,
    {
        if count == 0 {
            queue
        } else {
            Self::dequeued_times(Self::dequeued(queue), (count - 1) as nat)
        }
    }

    /// An empty queue.
    pub fn new() -> (buffer: Self)
        ensures
            buffer@ == Seq::<Command>::empty(),
    {
        Self { commands: VecDeque::new() }
    }

    /// Appends `command` at the tail. Always succeeds.
    pub fn add_command(&mut self, command: Command)
        ensures
            final(self)@ == Self::enqueued(old(self)@, command),
    {
        self.commands.push_back(command);
    }

    /// Removes and returns the head, or returns `None` on an empty queue.
    pub fn next_command(&mut self) -> (next: Option<Command>)
        ensures
            next == Self::front(old(self)@),
            final(self)@ == Self::dequeued(old(self)@),
    {
        self.commands.pop_front()
    }

    /// The number of waiting commands.
    pub fn len(&self) -> (count: usize)
        ensures
            count == self@.len(),
    {
        self.commands.len()
    }

    /// Whether no command waits.
    pub fn is_empty(&self) -> (empty: bool)
        ensures
            empty == (self@.len() == 0),
    {
        self.commands.len() == 0
    }
}

impl CommandBuffer {
    /// Enqueuing a run of commands appends that run, unchanged, behind what was waiting.
    pub proof fn lemma_enqueued_all_appends(queue: Seq<Command>, commands: Seq<Command>)
        ensures
            Self::enqueued_all(queue, commands) == queue + commands,
        decreases commands.len(),
    {
        if commands.len() > 0 {
            Self::lemma_enqueued_all_appends(queue.push(commands[0]), commands.skip(1));
            assert(queue.push(commands[0]) + commands.skip(1) =~= queue + commands);
        }
    }

    /// Dequeuing `count` times drops the `count` oldest commands and nothing else;
    /// once the queue is empty, it stays empty.
    pub proof fn lemma_dequeued_times_skips(queue: Seq<Command>, count: nat)
        ensures
            count <= queue.len() ==> Self::dequeued_times(queue, count) == queue.skip(count as int),
            count >= queue.len() ==> Self::dequeued_times(queue, count).len() == 0,
        decreases count,
    {
        if count > 0 && queue.len() == 0 {
            Self::lemma_dequeued_times_skips(queue, (count - 1) as nat);
        } else if count > 0 {
            Self::lemma_dequeued_times_skips(queue.skip(1), (count - 1) as nat);
            if count <= queue.len() {
                assert(queue.skip(1).skip(count - 1) =~= queue.skip(count as int));
            }
        }
    }

    /// First in, first out. After the commands of `commands` have been enqueued in
    /// order behind the waiting commands `waiting`, the dequeue number `k` (counted
    /// from zero) hands out element `k` of `waiting + commands`, and nothing once
    /// these are used up: no command is dropped, reordered or duplicated. The queue
    /// is empty after exactly as many dequeues as there were commands, and not
    /// before.
    pub proof fn lemma_fifo(waiting: Seq<Command>, commands: Seq<Command>, k: nat)
        ensures
            ({
                let all = waiting + commands;
                let left = Self::dequeued_times(Self::enqueued_all(waiting, commands), k);
                &&& k <= all.len() ==> left == all.skip(k as int)
                &&& k < all.len() ==> Self::front(left) == Some(all[k as int])
                &&& k >= all.len() ==> Self::front(left) == None::<Command>
                &&& (left.len() == 0 <==> k >= all.len())
            }),
    {
        Self::lemma_enqueued_all_appends(waiting, commands);
        Self::lemma_dequeued_times_skips(waiting + commands, k);
    }
}

} // verus!
