use tickradio::board::Board;
use tickradio::display::{DisplayAction, DisplayEvent, DisplayTask, Screen};
use tickradio::echo::{echo_step, read_index, EchoAction};
use tickradio::frame::{FrameBuf, TxRate, TxRequest};
use tickradio::messages::{message, MsgIndex, MESSAGES, MESSAGE_COUNT};
use tickradio::role::{Role, RECEIVER_MAC, SENDER_MAC};
use tickradio::sender::{Sender, SenderAction, SenderEvent};

fn drawn(action: DisplayAction) -> Option<Screen> {
    match action {
        DisplayAction::Draw(screen) => Some(screen),
        DisplayAction::Pause(ticks) => {
            assert_eq!(ticks, 1);
            None
        }
    }
}

fn sent(action: SenderAction) -> TxRequest {
    match action {
        SenderAction::Transmit(request) => request,
        _ => panic!("nothing sent"),
    }
}

fn echoed(mpdu: &[u8], shown: &mut MsgIndex) -> Option<Vec<u8>> {
    let mut frame = mpdu.to_vec();
    match echo_step(&mut frame, shown) {
        EchoAction::Transmit(options) => {
            assert!(options.override_seq_num);
            assert!(matches!(options.rate, TxRate::OneMbpsLong));
            Some(frame)
        }
        EchoAction::Discard => {
            assert_eq!(frame, mpdu);
            None
        }
    }
}

fn bytes(request: &TxRequest) -> Vec<u8> {
    request.frame.bytes[..request.frame.len].to_vec()
}

#[test]
fn messages_are_counted_round_the_table() {
    assert_eq!(MESSAGES.len(), 8);
    assert_eq!(MESSAGE_COUNT, 8);
    let all = [
        "Hello!",
        "How are you?",
        "Rust on ESP32",
        "No OS needed",
        "WiFi works!",
        "Open MAC ftw",
        "Ping!",
        "Reticulum?",
    ];
    for i in 0..24u32 {
        assert_eq!(message(i), all[(i % 8) as usize]);
    }
    assert_eq!(message(u32::MAX), "Reticulum?");
}

#[test]
fn the_index_is_out_of_range_until_set() {
    let mut index = MsgIndex::new();
    assert_eq!(index.get(), 8);
    index.set(3);
    assert_eq!(index.get(), 3);
}

#[test]
fn display_draws_on_boot() {
    let board = Board::new();
    let mut task = DisplayTask::new(Role::Receiver);
    let screen = drawn(task.step(DisplayEvent::Resumed, &board.shown)).unwrap();
    assert_eq!(screen.title.text, "receiver:");
    assert_eq!((screen.title.x, screen.title.y), (0, 0));
    assert_eq!(screen.message.text, "Hello!");
    assert_eq!((screen.message.x, screen.message.y), (0, 16));
    assert_eq!(task.last_drawn, 8);
}

#[test]
fn display_redraws_on_change_only() {
    let mut board = Board::new();
    let mut task = DisplayTask::new(Role::Sender);
    board.shown.set(6);
    let screen = drawn(task.step(DisplayEvent::Resumed, &board.shown)).unwrap();
    assert_eq!((screen.title.text, screen.message.text), ("sender:", "Ping!"));
    assert!(drawn(task.step(DisplayEvent::Drawn, &board.shown)).is_none());
    assert!(drawn(task.step(DisplayEvent::Resumed, &board.shown)).is_none());
    board.shown.set(6);
    assert!(drawn(task.step(DisplayEvent::Resumed, &board.shown)).is_none());
    board.shown.set(7);
    assert!(drawn(task.step(DisplayEvent::Drawn, &board.shown)).is_none());
    let screen = drawn(task.step(DisplayEvent::Resumed, &board.shown)).unwrap();
    assert_eq!(screen.message.text, "Reticulum?");
}

#[test]
fn sender_sends_the_index_of_its_round() {
    let mut board = Board::new();
    let mut sender = Sender { counter: 13 };
    let request = sent(sender.step(SenderEvent::Resumed, &mut board.shown));
    assert_eq!(board.shown.get(), 5);
    assert!(request.options.override_seq_num);
    assert_eq!(
        bytes(&request),
        vec![
            0x08, 0, 0, 0, 2, 0, 0, 0, 0, 2, 2, 0, 0, 0, 0, 1, 2, 0, 0, 0, 0, 2, 0, 0, 5
        ]
    );
    assert!(matches!(
        sender.step(SenderEvent::Sent, &mut board.shown),
        SenderAction::Receive
    ));
    assert_eq!(sender.counter, 13);
}

#[test]
fn sender_waits_for_a_frame_of_the_receiver() {
    let mut board = Board::new();
    let mut sender = Sender::new();
    sender.step(SenderEvent::Resumed, &mut board.shown);
    let own = FrameBuf::data(&RECEIVER_MAC, &SENDER_MAC, &[0]);
    let echo = FrameBuf::data(&SENDER_MAC, &RECEIVER_MAC, &[0]);
    for other in [&own.bytes[..25], &echo.bytes[..15], &[]] {
        let action = sender.step(SenderEvent::Received(other), &mut board.shown);
        assert!(matches!(action, SenderAction::Receive));
        assert_eq!(sender.counter, 0);
    }
    let action = sender.step(SenderEvent::Received(&echo.bytes[..16]), &mut board.shown);
    assert!(matches!(action, SenderAction::Pause(10)));
    assert_eq!(sender.counter, 1);
    assert_eq!(board.shown.get(), 0);
}

#[test]
fn rounds_cycle_also_where_the_counter_starts_over() {
    let mut board = Board::new();
    let mut sender = Sender { counter: u32::MAX - 1 };
    let echo = FrameBuf::data(&SENDER_MAC, &RECEIVER_MAC, &[0]);
    let mut seen: Vec<u32> = Vec::new();
    for _ in 0..10 {
        sender.step(SenderEvent::Resumed, &mut board.shown);
        seen.push(board.shown.get());
        sender.step(SenderEvent::Received(&echo.bytes[..25]), &mut board.shown);
    }
    assert_eq!(seen, vec![6, 7, 0, 1, 2, 3, 4, 5, 6, 7]);
    assert_eq!(sender.counter, 8);
}

#[test]
fn a_round_goes_as_its_actions_ask() {
    let mut board = Board::new();
    let mut sender = Sender { counter: 7 };
    let beacon = FrameBuf::data(&[0xFF; 6], &[9; 6], &[1, 2]);
    let echo = FrameBuf::data(&SENDER_MAC, &RECEIVER_MAC, &[7]);
    let air = [&beacon.bytes[..26], &beacon.bytes[..26], &echo.bytes[..25]];
    let mut heard = 0usize;
    let mut trace = String::new();
    let mut action = sender.step(SenderEvent::Resumed, &mut board.shown);
    while trace.len() < 6 {
        let event = match action {
            SenderAction::Transmit(request) => {
                trace.push('T');
                assert_eq!(u32::from(request.frame.bytes[24]), sender.counter % 8);
                SenderEvent::Sent
            }
            SenderAction::Receive => {
                trace.push('R');
                heard += 1;
                SenderEvent::Received(air[heard - 1])
            }
            SenderAction::Pause(ticks) => {
                trace.push('P');
                assert_eq!(ticks, 10);
                SenderEvent::Resumed
            }
        };
        action = sender.step(event, &mut board.shown);
    }
    assert_eq!(trace, "TRRRPT");
    assert_eq!((heard, sender.counter, board.shown.get()), (3, 8, 0));
}

#[test]
fn echo_ignores_frames_of_others() {
    let mut board = Board::new();
    board.shown.set(2);
    let own = FrameBuf::data(&SENDER_MAC, &RECEIVER_MAC, &[4]);
    let request = FrameBuf::data(&RECEIVER_MAC, &SENDER_MAC, &[4]);
    for other in [&own.bytes[..25], &request.bytes[..15], &[]] {
        assert!(echoed(other, &mut board.shown).is_none());
        assert_eq!(board.shown.get(), 2);
    }
}

#[test]
fn echo_shows_the_index_counted_round_the_table() {
    let mut board = Board::new();
    let request = FrameBuf::data(&RECEIVER_MAC, &SENDER_MAC, &[0xFE, 1, 2]);
    assert_eq!(read_index(&request.bytes[..27]), Some(6));
    assert_eq!(read_index(&request.bytes[..25]), Some(6));
    assert_eq!(read_index(&request.bytes[..24]), None);
    let reply = echoed(&request.bytes[..27], &mut board.shown).unwrap();
    assert_eq!(board.shown.get(), 6);
    assert_eq!(
        reply,
        vec![
            0x08, 0, 0, 0, 2, 0, 0, 0, 0, 1, 2, 0, 0, 0, 0, 2, 2, 0, 0, 0, 0, 2, 0, 0, 0xFE, 1, 2
        ]
    );
}

#[test]
fn echo_of_a_frame_without_payload_keeps_the_message() {
    let mut board = Board::new();
    board.shown.set(1);
    let request = FrameBuf::data(&RECEIVER_MAC, &SENDER_MAC, &[]);
    for len in [16usize, 20, 24] {
        let reply = echoed(&request.bytes[..len], &mut board.shown).unwrap();
        assert_eq!(reply.len(), len);
        assert_eq!(reply[10..16], RECEIVER_MAC);
        assert_eq!(board.shown.get(), 1);
    }
}

#[test]
fn echo_sends_long_frames_back_whole() {
    let mut board = Board::new();
    let mut long = FrameBuf::data(&RECEIVER_MAC, &SENDER_MAC, &[3; 232]).bytes.to_vec();
    long.extend((0..1344u32).map(|i| i as u8));
    let reply = echoed(&long, &mut board.shown).unwrap();
    assert_eq!(reply.len(), 1600);
    assert_eq!(reply[..4], long[..4]);
    assert_eq!(reply[4..10], SENDER_MAC);
    assert_eq!(reply[10..16], RECEIVER_MAC);
    assert_eq!(reply[16..], long[16..]);
    assert_eq!(board.shown.get(), 3);
}

#[test]
fn the_two_boards_stay_in_sync() {
    let mut a = Board::new();
    let mut b = Board::new();
    let mut sender = Sender::new();
    let mut screen_a = DisplayTask::new(Role::Sender);
    let mut screen_b = DisplayTask::new(Role::Receiver);
    drawn(screen_b.step(DisplayEvent::Resumed, &b.shown)).unwrap();
    for round in 0..20u32 {
        let mut request = bytes(&sent(sender.step(SenderEvent::Resumed, &mut a.shown)));
        request[22..24].copy_from_slice(&((round as u16 + 1) << 4).to_le_bytes());
        let mut echo = echoed(&request, &mut b.shown).unwrap();
        assert_eq!(echo[22..24], request[22..24]);
        echo[22..24].copy_from_slice(&((round as u16 + 300) << 4).to_le_bytes());
        assert_eq!(a.shown.get(), round % 8);
        assert_eq!(b.shown.get(), round % 8);
        let on_a = drawn(screen_a.step(DisplayEvent::Resumed, &a.shown)).unwrap();
        let on_b = drawn(screen_b.step(DisplayEvent::Resumed, &b.shown)).unwrap();
        assert_eq!(on_a.message.text, on_b.message.text);
        let action = sender.step(SenderEvent::Received(&echo), &mut a.shown);
        assert!(matches!(action, SenderAction::Pause(10)));
        assert_eq!(sender.counter, round + 1);
    }
}
