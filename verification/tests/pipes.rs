use bytes::BytesMut;
use extcap::control_pipe::PIPE_LEN;
use extcap::{
    after_write, ControlCmd, ControlMsg, ControlMsgCodec, ControlPipe, PipeState, PipeStateError,
    PumpNext,
};
use futures::channel::mpsc;
use futures::{SinkExt, StreamExt};

fn numbered(i: u32) -> ControlMsg {
    ControlMsg::new((i % 251) as u8, ControlCmd::from((i % 13) as u8), &i.to_be_bytes())
}

fn check_numbered(i: u32, msg: &ControlMsg) {
    assert_eq!(msg.get_ctrl_num(), (i % 251) as u8);
    assert_eq!(*msg.get_command(), ControlCmd::from((i % 13) as u8));
    assert_eq!(msg.get_data(), &i.to_be_bytes()[..]);
}

#[test]
fn pipe_starts_once_and_stops_once() {
    let mut pipe = ControlPipe::new();
    assert_eq!(pipe.state(), PipeState::New);
    assert_eq!(pipe.start(), Ok(()));
    assert_eq!(pipe.state(), PipeState::Started);
    assert_eq!(pipe.start(), Err(PipeStateError::NotNew));
    assert_eq!(pipe.state(), PipeState::Started);
    assert_eq!(pipe.stop(), Ok(()));
    assert_eq!(pipe.state(), PipeState::Stopped);
    assert_eq!(pipe.stop(), Err(PipeStateError::NotStarted));
    assert_eq!(pipe.start(), Err(PipeStateError::NotNew));
    assert_eq!(pipe.state(), PipeState::Stopped);
}

#[test]
fn pipe_refuses_stop_before_start() {
    let mut pipe = ControlPipe::new();
    assert_eq!(pipe.stop(), Err(PipeStateError::NotStarted));
    assert_eq!(pipe.state(), PipeState::New);
    assert_eq!(pipe.start(), Ok(()));
}

#[test]
fn queue_capacity_is_128() {
    assert_eq!(PIPE_LEN, 128);
}

#[test]
fn queue_passes_200_messages_in_order() {
    let (mut tx, mut rx) = mpsc::channel::<ControlMsg>(PIPE_LEN);
    let send = async move {
        for i in 0..200u32 {
            tx.send(numbered(i)).await.unwrap();
        }
    };
    let recv = async move {
        let mut got = Vec::new();
        while let Some(msg) = rx.next().await {
            got.push(msg);
        }
        got
    };
    let ((), got) = futures::executor::block_on(futures::future::join(send, recv));
    assert_eq!(got.len(), 200);
    for (i, msg) in got.iter().enumerate() {
        check_numbered(i as u32, msg);
    }
}

#[test]
fn full_queue_holds_the_sender_back_and_drops_nothing() {
    let (mut tx, mut rx) = mpsc::channel::<ControlMsg>(PIPE_LEN);
    let mut sent = 0u32;
    while tx.try_send(numbered(sent)).is_ok() {
        sent += 1;
        assert!(sent <= 200);
    }
    assert!(sent >= PIPE_LEN as u32);
    assert!(sent < 200);
    let mut got = Vec::new();
    while got.len() < 200 {
        match rx.try_next() {
            Ok(Some(msg)) => got.push(msg),
            _ => {
                assert!(tx.try_send(numbered(sent)).is_ok());
                sent += 1;
            }
        }
    }
    for (i, msg) in got.iter().enumerate() {
        check_numbered(i as u32, msg);
    }
}

#[test]
fn frames_written_in_order_are_read_back_in_order() {
    let mut codec = ControlMsgCodec;
    let mut wire = BytesMut::new();
    for i in 0..200u32 {
        assert_eq!(codec.encode(numbered(i), &mut wire), Ok(()));
    }
    assert_eq!(wire.len(), 200 * 10);
    for i in 0..200u32 {
        let msg = codec.decode(&mut wire).unwrap().unwrap();
        check_numbered(i, &msg);
    }
    assert!(wire.is_empty());
    assert!(matches!(codec.decode(&mut wire), Ok(None)));
}

#[test]
fn pump_goes_on_after_a_written_frame_and_ends_at_a_failed_one() {
    assert_eq!(after_write(true), PumpNext::GoOn);
    assert_eq!(after_write(false), PumpNext::End);
}
