use wgpu_solar::commandbuffer::{Command, CommandBuffer};

#[test]
fn new_queue_is_empty() {
    let mut queue = CommandBuffer::new();
    assert!(queue.is_empty());
    assert_eq!(queue.len(), 0);
    assert_eq!(queue.next_command(), None);
    assert!(queue.is_empty());
}

#[test]
fn commands_come_out_in_the_order_they_went_in() {
    let order = vec![
        Command::Play,
        Command::Pause,
        Command::PlayForward,
        Command::PlayReverse,
        Command::DebugDraw,
        Command::Quit,
        Command::Play,
        Command::Play,
    ];
    let mut queue = CommandBuffer::new();
    for command in &order {
        queue.add_command(*command);
    }
    assert_eq!(queue.len(), order.len());
    for (taken, command) in order.iter().enumerate() {
        assert!(!queue.is_empty());
        assert_eq!(queue.len(), order.len() - taken);
        assert_eq!(queue.next_command(), Some(*command));
    }
    assert!(queue.is_empty());
    assert_eq!(queue.next_command(), None);
}

#[test]
fn enqueues_and_dequeues_may_alternate() {
    let mut queue = CommandBuffer::new();
    queue.add_command(Command::Pause);
    queue.add_command(Command::Play);
    assert_eq!(queue.next_command(), Some(Command::Pause));
    queue.add_command(Command::Quit);
    assert_eq!(queue.next_command(), Some(Command::Play));
    assert_eq!(queue.next_command(), Some(Command::Quit));
    assert_eq!(queue.next_command(), None);
    queue.add_command(Command::DebugDraw);
    assert_eq!(queue.len(), 1);
    assert_eq!(queue.next_command(), Some(Command::DebugDraw));
}

#[test]
fn equal_commands_are_not_merged() {
    let mut queue = CommandBuffer::new();
    queue.add_command(Command::Play);
    queue.add_command(Command::Play);
    queue.add_command(Command::Play);
    assert_eq!(queue.len(), 3);
    assert_eq!(queue.next_command(), Some(Command::Play));
    assert_eq!(queue.next_command(), Some(Command::Play));
    assert_eq!(queue.next_command(), Some(Command::Play));
    assert_eq!(queue.next_command(), None);
}
