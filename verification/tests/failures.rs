use std::time::Duration;
use tcp_client::errors::{check_func, connect, recv as settle_recv, send as settle_send, Error};
use tcp_client::network::{
    recv, send, stage_name, start_client, NetworkError, Outcome, CONNECTING, RECEIVING, SENDING,
};

#[test]
fn stage_codes_are_one_two_three() {
    assert_eq!(SENDING, 1);
    assert_eq!(RECEIVING, 2);
    assert_eq!(CONNECTING, 3);
}

#[test]
fn stage_name_reads_every_other_code_as_connecting() {
    assert_eq!(stage_name(1), "Sending");
    assert_eq!(stage_name(2), "Receiving");
    assert_eq!(stage_name(3), "Connecting");
    assert_eq!(stage_name(0), "Connecting");
    assert_eq!(stage_name(255), "Connecting");
}

#[test]
fn send_settles_each_outcome() {
    assert!(matches!(send(Outcome::Done(5u64), 30), Ok(5)));
    assert!(matches!(
        send(Outcome::<u64>::Failed(String::from("reset")), 30),
        Err(NetworkError::PacketError(text)) if text == "reset"
    ));
    assert!(matches!(send(Outcome::<u64>::TimedOut, 12), Err(NetworkError::Timeout(1, 12))));
}

#[test]
fn recv_settles_each_outcome() {
    let done = recv(Outcome::Done((vec![1u8, 2], 6u64)), 30).unwrap();
    assert_eq!(done, (vec![1u8, 2], 6u64));
    assert!(matches!(
        recv(Outcome::<(Vec<u8>, u64)>::Failed(String::from("eof")), 30),
        Err(NetworkError::PacketError(text)) if text == "eof"
    ));
    assert!(matches!(
        recv(Outcome::<(Vec<u8>, u64)>::TimedOut, 0),
        Err(NetworkError::Timeout(2, 0))
    ));
}

#[test]
fn handshake_in_time_gives_the_first_cipher() {
    assert!(matches!(start_client(Outcome::Done(77u64), 30), Ok(77)));
}

#[test]
fn handshake_that_was_refused_is_a_starter_failure() {
    assert!(matches!(
        start_client(Outcome::<u64>::Failed(String::from("version mismatch")), 30),
        Err(NetworkError::StarterError(text)) if text == "version mismatch"
    ));
}

#[test]
fn handshake_out_of_time_gives_no_cipher() {
    let result = start_client(Outcome::<u64>::TimedOut, 10);
    assert!(matches!(result, Err(NetworkError::Timeout(3, 10))));
    assert!(matches!(
        start_client(Outcome::<u64>::TimedOut, u64::MAX),
        Err(NetworkError::Timeout(CONNECTING, u64::MAX))
    ));
}

#[test]
fn only_an_unavailable_function_is_not_fatal() {
    assert!(NetworkError::Timeout(SENDING, 1).is_fatal());
    assert!(NetworkError::Timeout(RECEIVING, 1).is_fatal());
    assert!(NetworkError::Timeout(CONNECTING, 1).is_fatal());
    assert!(NetworkError::StarterError(String::new()).is_fatal());
    assert!(NetworkError::PacketError(String::new()).is_fatal());
    assert!(NetworkError::BufError(std::io::Error::other("short")).is_fatal());
    assert!(NetworkError::BrokenCipher().is_fatal());
    assert!(!NetworkError::FunctionNotAvailable(String::from("x")).is_fatal());
}

#[test]
fn connect_settles_each_outcome() {
    let limit = Duration::from_secs(10);
    assert!(matches!(connect(Outcome::Done(1u8), limit), Ok(1)));
    assert!(matches!(
        connect(Outcome::<u8>::Failed(String::from("refused")), limit),
        Err(Error::StarterError(text)) if text == "refused"
    ));
    assert!(matches!(
        connect(Outcome::<u8>::TimedOut, limit),
        Err(Error::Timeout(true, used)) if used == limit
    ));
}

#[test]
fn duration_send_settles_each_outcome() {
    assert!(matches!(settle_send(Ok(())), Ok(())));
    assert!(matches!(
        settle_send(Err(String::from("reset"))),
        Err(Error::PacketError(text)) if text == "reset"
    ));
}

#[test]
fn duration_recv_settles_each_outcome() {
    let limit = Duration::from_millis(250);
    assert_eq!(settle_recv(Outcome::Done(vec![4u8]), limit).unwrap(), vec![4u8]);
    assert!(matches!(
        settle_recv(Outcome::Failed(String::from("eof")), limit),
        Err(Error::PacketError(text)) if text == "eof"
    ));
    assert!(matches!(
        settle_recv(Outcome::TimedOut, limit),
        Err(Error::Timeout(false, used)) if used == limit
    ));
}

#[test]
fn duration_check_func_reads_the_flag() {
    assert!(matches!(check_func(&[1]), Ok(())));
    assert!(matches!(check_func(&[1, 9]), Ok(())));
    assert!(matches!(check_func(&[0]), Err(Error::ServerDenied)));
    assert!(matches!(check_func(&[]), Err(Error::DataError(_))));
    assert!(matches!(check_func(&[7]), Err(Error::DataError(_))));
}
