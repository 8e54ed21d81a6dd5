use port_forwarder::copy::{Action, CopyTask, Event, Phase, Stop, BUFFER_SIZE};

fn writing(chunk: &[u8]) -> CopyTask {
    let (mut task, _) = CopyTask::start();
    assert_eq!(task.step(Event::Read(chunk.to_vec())), Action::Write);
    task
}

fn flushing(chunk: &[u8]) -> CopyTask {
    let mut task = writing(chunk);
    assert_eq!(task.step(Event::Wrote(chunk.len())), Action::Flush);
    task
}

fn closing(stop: Stop) -> CopyTask {
    let (mut task, _) = CopyTask::start();
    let event = match stop {
        Stop::EndOfStream => Event::Read(Vec::new()),
        Stop::ReadFailed => Event::ReadFailed,
        Stop::WriteFailed => {
            task.step(Event::Read(vec![1, 2, 3]));
            Event::WriteFailed
        }
        Stop::FlushFailed => {
            task.step(Event::Read(vec![1, 2, 3]));
            task.step(Event::Wrote(3));
            Event::FlushFailed
        }
    };
    assert_eq!(task.step(event), Action::Shutdown);
    assert_eq!(task.phase(), Phase::Closing(stop));
    task
}

fn every_event() -> Vec<Event> {
    vec![
        Event::Read(vec![9, 9]),
        Event::Read(Vec::new()),
        Event::ReadFailed,
        Event::Wrote(0),
        Event::Wrote(1),
        Event::Wrote(2),
        Event::WriteFailed,
        Event::Flushed,
        Event::FlushFailed,
        Event::Closed,
    ]
}

#[test]
fn buffer_size_is_four_kibibytes() {
    assert_eq!(BUFFER_SIZE, 4096);
}

#[test]
fn new_task_reads_first() {
    let (task, action) = CopyTask::start();
    assert_eq!(action, Action::Read);
    assert_eq!(task.phase(), Phase::Reading);
    assert!(task.pending().is_empty());
}

#[test]
fn chunk_is_written_then_flushed_then_next_read() {
    let (mut task, _) = CopyTask::start();
    assert_eq!(task.step(Event::Read(b"hello".to_vec())), Action::Write);
    assert_eq!(task.phase(), Phase::Writing);
    assert_eq!(task.pending(), b"hello");
    assert_eq!(task.step(Event::Wrote(5)), Action::Flush);
    assert_eq!(task.phase(), Phase::Flushing);
    assert!(task.pending().is_empty());
    assert_eq!(task.step(Event::Flushed), Action::Read);
    assert_eq!(task.phase(), Phase::Reading);
    assert!(task.pending().is_empty());
}

#[test]
fn partial_writes_are_drained_before_the_next_read() {
    let mut task = writing(b"0123456789");
    assert_eq!(task.step(Event::Wrote(3)), Action::Write);
    assert_eq!(task.pending(), b"3456789");
    assert_eq!(task.phase(), Phase::Writing);
    assert_eq!(task.step(Event::Wrote(4)), Action::Write);
    assert_eq!(task.pending(), b"789");
    assert_eq!(task.step(Event::Wrote(1)), Action::Write);
    assert_eq!(task.pending(), b"89");
    assert_eq!(task.step(Event::Wrote(2)), Action::Flush);
    assert!(task.pending().is_empty());
    assert_eq!(task.step(Event::Flushed), Action::Read);
}

#[test]
fn single_byte_chunk_is_relayed() {
    let mut task = writing(&[0xff]);
    assert_eq!(task.pending(), &[0xff]);
    assert_eq!(task.step(Event::Wrote(1)), Action::Flush);
}

#[test]
fn chunk_larger_than_the_buffer_is_still_relayed_whole() {
    let big: Vec<u8> = vec![7; BUFFER_SIZE + 1];
    let mut task = writing(&big);
    assert_eq!(task.pending().len(), BUFFER_SIZE + 1);
    assert_eq!(task.step(Event::Wrote(BUFFER_SIZE)), Action::Write);
    assert_eq!(task.pending(), &[7]);
    assert_eq!(task.step(Event::Wrote(1)), Action::Flush);
}

#[test]
fn zero_length_read_is_end_of_stream() {
    let (mut task, _) = CopyTask::start();
    assert_eq!(task.step(Event::Read(Vec::new())), Action::Shutdown);
    assert_eq!(task.phase(), Phase::Closing(Stop::EndOfStream));
    assert!(task.pending().is_empty());
    assert_eq!(task.step(Event::Closed), Action::Done);
    assert_eq!(task.phase(), Phase::Finished(Stop::EndOfStream));
}

#[test]
fn end_of_stream_after_data_shuts_the_sink_down() {
    let mut task = flushing(b"tail");
    assert_eq!(task.step(Event::Flushed), Action::Read);
    assert_eq!(task.step(Event::Read(Vec::new())), Action::Shutdown);
    assert_eq!(task.step(Event::Closed), Action::Done);
    assert_eq!(task.phase(), Phase::Finished(Stop::EndOfStream));
}

#[test]
fn failed_read_stops_the_task() {
    let (mut task, _) = CopyTask::start();
    assert_eq!(task.step(Event::ReadFailed), Action::Shutdown);
    assert_eq!(task.phase(), Phase::Closing(Stop::ReadFailed));
    assert_eq!(task.step(Event::Closed), Action::Done);
    assert_eq!(task.phase(), Phase::Finished(Stop::ReadFailed));
}

#[test]
fn failed_write_stops_the_task_and_keeps_what_was_not_taken() {
    let mut task = writing(b"abcdef");
    assert_eq!(task.step(Event::Wrote(2)), Action::Write);
    assert_eq!(task.step(Event::WriteFailed), Action::Shutdown);
    assert_eq!(task.phase(), Phase::Closing(Stop::WriteFailed));
    assert_eq!(task.pending(), b"cdef");
    assert_eq!(task.step(Event::Closed), Action::Done);
    assert_eq!(task.phase(), Phase::Finished(Stop::WriteFailed));
    assert_eq!(task.pending(), b"cdef");
}

#[test]
fn write_that_takes_nothing_is_a_failed_write() {
    let mut task = writing(b"abc");
    assert_eq!(task.step(Event::Wrote(0)), Action::Shutdown);
    assert_eq!(task.phase(), Phase::Closing(Stop::WriteFailed));
    assert_eq!(task.pending(), b"abc");
}

#[test]
fn write_that_claims_more_than_was_offered_is_a_failed_write() {
    let mut task = writing(b"abc");
    assert_eq!(task.step(Event::Wrote(4)), Action::Shutdown);
    assert_eq!(task.phase(), Phase::Closing(Stop::WriteFailed));
    let mut task = writing(b"abc");
    assert_eq!(task.step(Event::Wrote(usize::MAX)), Action::Shutdown);
    assert_eq!(task.phase(), Phase::Closing(Stop::WriteFailed));
}

#[test]
fn failed_flush_stops_the_task() {
    let mut task = flushing(b"abc");
    assert_eq!(task.step(Event::FlushFailed), Action::Shutdown);
    assert_eq!(task.phase(), Phase::Closing(Stop::FlushFailed));
    assert!(task.pending().is_empty());
    assert_eq!(task.step(Event::Closed), Action::Done);
    assert_eq!(task.phase(), Phase::Finished(Stop::FlushFailed));
}

#[test]
fn reading_task_ignores_what_it_did_not_ask_for() {
    for event in every_event() {
        let expected = matches!(event, Event::Read(_) | Event::ReadFailed);
        let (mut task, _) = CopyTask::start();
        let action = task.step(event);
        if !expected {
            assert_eq!(action, Action::Nothing);
            assert_eq!(task.phase(), Phase::Reading);
            assert!(task.pending().is_empty());
        }
    }
}

#[test]
fn writing_task_ignores_what_it_did_not_ask_for() {
    for event in every_event() {
        let expected = matches!(event, Event::Wrote(_) | Event::WriteFailed);
        let mut task = writing(b"xy");
        let action = task.step(event);
        if !expected {
            assert_eq!(action, Action::Nothing);
            assert_eq!(task.phase(), Phase::Writing);
            assert_eq!(task.pending(), b"xy");
        }
    }
}

#[test]
fn flushing_task_ignores_what_it_did_not_ask_for() {
    for event in every_event() {
        let expected = matches!(event, Event::Flushed | Event::FlushFailed);
        let mut task = flushing(b"xy");
        let action = task.step(event);
        if !expected {
            assert_eq!(action, Action::Nothing);
            assert_eq!(task.phase(), Phase::Flushing);
        }
    }
}

#[test]
fn closing_task_waits_for_the_shutdown_alone() {
    for stop in [Stop::EndOfStream, Stop::ReadFailed, Stop::WriteFailed, Stop::FlushFailed] {
        for event in every_event() {
            let mut task = closing(stop);
            let action = task.step(event.clone());
            if event == Event::Closed {
                assert_eq!(action, Action::Done);
                assert_eq!(task.phase(), Phase::Finished(stop));
            } else {
                assert_eq!(action, Action::Nothing);
                assert_eq!(task.phase(), Phase::Closing(stop));
            }
        }
    }
}

#[test]
fn finished_task_ignores_everything() {
    for stop in [Stop::EndOfStream, Stop::ReadFailed, Stop::WriteFailed, Stop::FlushFailed] {
        let mut task = closing(stop);
        assert_eq!(task.step(Event::Closed), Action::Done);
        for event in every_event() {
            assert_eq!(task.step(event), Action::Nothing);
            assert_eq!(task.phase(), Phase::Finished(stop));
        }
    }
}

#[test]
fn task_asks_for_one_shutdown_and_reports_done_once() {
    let script = vec![
        Event::Read(b"ab".to_vec()),
        Event::Wrote(1),
        Event::Wrote(1),
        Event::Flushed,
        Event::Read(Vec::new()),
        Event::Read(Vec::new()),
        Event::ReadFailed,
        Event::Closed,
        Event::Closed,
        Event::WriteFailed,
        Event::Read(b"late".to_vec()),
    ];
    let (mut task, _) = CopyTask::start();
    let mut shutdowns: usize = 0;
    let mut dones: usize = 0;
    for event in script {
        match task.step(event) {
            Action::Shutdown => shutdowns += 1,
            Action::Done => dones += 1,
            _ => {}
        }
    }
    assert_eq!(shutdowns, 1);
    assert_eq!(dones, 1);
    assert_eq!(task.phase(), Phase::Finished(Stop::EndOfStream));
}

#[test]
fn delivered_bytes_are_the_received_bytes_in_order() {
    let chunks: Vec<Vec<u8>> = vec![b"one ".to_vec(), b"two ".to_vec(), b"three".to_vec()];
    let takes: Vec<usize> = vec![1, 2, 4, 3];
    let (mut task, mut action) = CopyTask::start();
    let mut received: Vec<u8> = Vec::new();
    let mut delivered: Vec<u8> = Vec::new();
    let mut next_chunk: usize = 0;
    let mut next_take: usize = 0;
    loop {
        let event = match action {
            Action::Read => {
                if next_chunk < chunks.len() {
                    let chunk = chunks[next_chunk].clone();
                    next_chunk += 1;
                    received.extend_from_slice(&chunk);
                    Event::Read(chunk)
                } else {
                    Event::Read(Vec::new())
                }
            }
            Action::Write => {
                let pending = task.pending();
                let n = takes[next_take % takes.len()].min(pending.len());
                next_take += 1;
                delivered.extend_from_slice(&pending[..n]);
                Event::Wrote(n)
            }
            Action::Flush => Event::Flushed,
            Action::Shutdown => Event::Closed,
            Action::Done => break,
            Action::Nothing => panic!("the task ignored an answer to its own request"),
        };
        action = task.step(event);
        let mut expected = delivered.clone();
        expected.extend_from_slice(task.pending());
        assert_eq!(expected, received);
    }
    assert_eq!(delivered, b"one two three");
    assert_eq!(task.phase(), Phase::Finished(Stop::EndOfStream));
}
