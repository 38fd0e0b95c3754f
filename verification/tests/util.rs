use std::future::ready;

use ztunnel::proxy::util::{
    is_runtime_shutdown, write_summary, written_by_vectored, written_by_write, ErrorKind,
    InspectWriter, IoError, TimedWrapper, Timing,
};

fn error(kind: ErrorKind, message: &str) -> IoError {
    IoError { kind, message: message.to_string() }
}

#[test]
fn only_the_shutdown_of_the_runtime_is_taken_for_it() {
    let message = "A Tokio 1.x context was found, but it is being shutdown.";
    assert!(is_runtime_shutdown(&error(ErrorKind::Other, message)));
    assert!(!is_runtime_shutdown(&error(ErrorKind::Specific, message)));
    assert!(!is_runtime_shutdown(&error(ErrorKind::Other, "reset")));
}

#[test]
fn polls_are_timed() {
    let mut timed = TimedWrapper::new(ready(1));
    timed.begin_poll(100);
    timed.end_poll(100, 130);
    timed.begin_poll(200);
    timed.end_poll(200, 190);
    timed.begin_poll(300);
    timed.end_poll(300, 301);
    assert_eq!(
        timed.report(301),
        Timing { wall_time: 201, cpu_time: 31, executions: 3 }
    );
    assert_eq!(timed.report(50).wall_time, 0);
    assert_eq!(timed.future_mut().clone().into_inner(), 1);
}

#[test]
fn polls_take_no_longer_than_the_future() {
    let mut timed = TimedWrapper::new(ready(()));
    for (t0, t1) in [(5, 9), (9, 9), (12, 20)] {
        timed.begin_poll(t0);
        timed.end_poll(t0, t1);
    }
    let timing = timed.report(20);
    assert_eq!((timing.cpu_time, timing.wall_time), (12, 15));
    assert!(timing.cpu_time <= timing.wall_time);
}

#[test]
fn a_write_shows_what_was_written() {
    let buf = [1u8, 2, 3];
    assert_eq!(written_by_write(&buf, 2), Some(&buf[..2]));
    assert_eq!(written_by_write(&buf, 3), Some(&buf[..]));
    assert_eq!(written_by_write(&buf, 0), None);
}

#[test]
fn a_vectored_write_shows_the_parts_written() {
    let a = [1u8, 2, 3];
    let b = [4u8, 5];
    let c = [6u8];
    let empty: [u8; 0] = [];
    let bufs: Vec<&[u8]> = vec![&a, &empty, &b, &c];
    assert_eq!(written_by_vectored(&bufs, 4), Some(vec![&a[..], &b[..1]]));
    assert_eq!(written_by_vectored(&bufs, 3), Some(vec![&a[..]]));
    assert_eq!(written_by_vectored(&bufs, 6), Some(vec![&a[..], &b[..], &c[..]]));
    assert_eq!(written_by_vectored(&bufs, 0), None);
    assert_eq!(written_by_vectored(&vec![&empty[..]], 0), None);
    let parts = written_by_vectored(&bufs, 5).unwrap();
    assert_eq!(parts.concat(), bufs.concat()[..5]);
    assert_eq!(write_summary(&parts), (5, 2));
    assert_eq!(write_summary(&Vec::new()), (0, 0));
}

#[test]
fn the_writer_comes_back() {
    let w = InspectWriter::new(vec![7u8], 0);
    assert_eq!(w.into_inner(), vec![7]);
}
