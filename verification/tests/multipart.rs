use zmq2::multipart::{send_multipart_flags, MultipartReceiver};
use zmq2::{DONTWAIT, SNDMORE};

#[test]
fn send_flags_mark_all_but_last() {
    assert_eq!(send_multipart_flags(3, 0), vec![SNDMORE, SNDMORE, 0]);
    assert_eq!(send_multipart_flags(2, DONTWAIT), vec![DONTWAIT | SNDMORE, DONTWAIT]);
    assert_eq!(send_multipart_flags(1, DONTWAIT), vec![DONTWAIT]);
    assert_eq!(send_multipart_flags(0, 0), Vec::<i32>::new());
}

#[test]
fn receiver_collects_until_last_frame() {
    let mut r = MultipartReceiver::new();
    assert!(!r.is_done());
    r.push(b"a".to_vec(), true);
    assert!(!r.is_done());
    r.push(b"bc".to_vec(), true);
    r.push(Vec::new(), false);
    assert!(r.is_done());
    assert_eq!(r.into_parts(), vec![b"a".to_vec(), b"bc".to_vec(), Vec::new()]);
}

#[test]
fn receiver_single_frame() {
    let mut r = MultipartReceiver::new();
    r.push(b"only".to_vec(), false);
    assert!(r.is_done());
    assert_eq!(r.into_parts(), vec![b"only".to_vec()]);
}

#[test]
fn receiving_sent_parts_gives_them_back() {
    let parts: Vec<Vec<u8>> = vec![b"one".to_vec(), Vec::new(), b"three".to_vec()];
    let flags = send_multipart_flags(parts.len(), 0);
    // A later message follows on the wire; it must not be taken.
    let mut wire: Vec<(Vec<u8>, bool)> = parts
        .iter()
        .zip(flags.iter())
        .map(|(p, f)| (p.clone(), f & SNDMORE != 0))
        .collect();
    wire.push((b"later".to_vec(), false));
    let mut r = MultipartReceiver::new();
    for (part, more) in wire {
        if r.is_done() {
            break;
        }
        r.push(part, more);
    }
    assert_eq!(r.into_parts(), parts);
}

#[test]
fn received_frames_carry_more_except_the_last() {
    let flags = send_multipart_flags(4, DONTWAIT);
    let mores: Vec<bool> = flags.iter().map(|f| f & SNDMORE != 0).collect();
    assert_eq!(mores, vec![true, true, true, false]);
    let frames: Vec<zmq2::Message> =
        mores.iter().map(|m| zmq2::Message::from_msg(b"x".to_vec(), *m)).collect();
    let got: Vec<bool> = frames.iter().map(|m| m.get_more()).collect();
    assert_eq!(got, vec![true, true, true, false]);
    assert!(!zmq2::Message::new().get_more());
}
