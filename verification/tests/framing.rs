use stlink::{CommandFrame, UsbError, CMD_LEN};

#[test]
fn frame_length_is_sixteen() {
    assert_eq!(CMD_LEN, 16);
}

#[test]
fn short_command_is_padded_with_zeros() {
    let frame = CommandFrame::new(vec![0xF1, 0x80]).ok().unwrap();
    assert_eq!(frame.into_bytes(), vec![0xF1, 0x80, 0, 0, 0, 0, 0, 0, 0, 0, 0, 0, 0, 0, 0, 0]);
}

#[test]
fn empty_command_is_all_zeros() {
    let frame = CommandFrame::new(vec![]).ok().unwrap();
    assert_eq!(frame.into_bytes(), vec![0u8; 16]);
}

#[test]
fn full_command_is_left_as_it_is() {
    let command: Vec<u8> = (1..=16).collect();
    let frame = CommandFrame::new(command.clone()).ok().unwrap();
    assert_eq!(frame.into_bytes(), command);
}

#[test]
fn every_length_up_to_sixteen_gives_a_frame() {
    for n in 0..=16usize {
        let command: Vec<u8> = (0..n).map(|i| 0xA0 + i as u8).collect();
        let bytes = CommandFrame::new(command.clone()).ok().unwrap().into_bytes();
        assert_eq!(bytes.len(), 16);
        assert_eq!(&bytes[..n], &command[..]);
        assert!(bytes[n..].iter().all(|b| *b == 0));
    }
}

#[test]
fn long_command_is_refused() {
    assert_eq!(CommandFrame::new(vec![0x55; 17]).err(), Some(UsbError::InvalidParam));
    assert_eq!(CommandFrame::new(vec![0; 64]).err(), Some(UsbError::InvalidParam));
}
