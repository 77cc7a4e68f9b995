use gpib_lan::address::is_valid_address;
use gpib_lan::errors::GpibControllerError;
use gpib_lan::gpib_controller::GpibController;
use gpib_lan::gpib_controller::Transmission;
use gpib_lan::gpib_controller::BUFFER_SIZE;
use gpib_lan::handshake::Handshake;
use gpib_lan::handshake::LinkAction;
use gpib_lan::handshake::LinkEvent;
use gpib_lan::text::decimal_string;
use gpib_lan::text::parse_u8;

/// A stand-in for the adapter: it answers the address query with `reply`,
/// accepts every write, and keeps the text of each write in order.
fn connect_mock(reply: &[u8], writes: &mut Vec<String>) -> Result<GpibController, GpibControllerError> {
    let mut stage = Handshake::Opening;
    let mut event = LinkEvent::Opened;
    loop {
        let (next, action) = stage.step(event);
        stage = next;
        event = match action {
            LinkAction::Write(text) => {
                let n = text.len();
                writes.push(text);
                LinkEvent::Written(n)
            }
            LinkAction::Read => LinkEvent::Received(reply.to_vec()),
            LinkAction::Connected(session) => return Ok(session),
            LinkAction::Abort(e) => return Err(e),
        };
    }
}

/// Performs the writes of `plan` against a stand-in that accepts them all.
fn perform(session: &mut GpibController, plan: Vec<Transmission>, writes: &mut Vec<String>) {
    for t in plan {
        let n = t.command().len();
        session.record_write(&t, Ok(n)).unwrap();
        writes.push(t.command().to_string());
    }
}

#[test]
fn test_gpib_controller() {
    let mut writes = Vec::new();
    let mut controller = connect_mock(b"16\n", &mut writes).unwrap();
    let plan = controller.gpib_send_to_addr("*IDN?\n", 16).unwrap();
    perform(&mut controller, plan, &mut writes);
    assert_eq!(writes.last().unwrap(), "*IDN?\n");
    let reply = GpibController::read_data(b"HEWLETT-PACKARD,6060B,0,A.01.02\n").unwrap();
    assert_eq!(reply, "HEWLETT-PACKARD,6060B,0,A.01.02\n");
}

#[test]
fn handshake_reports_address_and_sends_three_commands() {
    let mut writes = Vec::new();
    let session = connect_mock(b"5\n", &mut writes).unwrap();
    assert_eq!(session.current_address(), 5);
    assert_eq!(writes, vec!["++addr\n".to_string(), "++auto 1\n".to_string(), "++mode 1\n".to_string()]);
}

#[test]
fn handshake_refuses_a_reply_that_is_not_a_number() {
    let mut writes = Vec::new();
    let r = connect_mock(b"addr?\n", &mut writes);
    assert_eq!(r.err(), Some(GpibControllerError::IntegerParseError));
    assert_eq!(writes, vec!["++addr\n".to_string()]);
}

#[test]
fn handshake_refuses_a_reply_that_is_not_text() {
    let mut writes = Vec::new();
    let r = connect_mock(&[0xff, 0xfe, b'\n'], &mut writes);
    assert_eq!(r.err(), Some(GpibControllerError::MalformedResponse));
}

#[test]
fn handshake_stops_on_a_transport_failure() {
    let (stage, action) = Handshake::Opening.step(LinkEvent::Opened);
    assert!(matches!(action, LinkAction::Write(ref c) if c == "++addr\n"));
    let (_, action) = stage.step(LinkEvent::Failed("connection reset".to_string()));
    assert!(matches!(action,
        LinkAction::Abort(GpibControllerError::TransportError(ref m)) if m == "connection reset"));
}

#[test]
fn read_at_capacity_returns_every_byte() {
    let bytes = vec![b'A'; BUFFER_SIZE];
    let text = GpibController::read_data(&bytes).unwrap();
    assert_eq!(text.len(), BUFFER_SIZE);
    assert_eq!(text.as_bytes(), &bytes[..]);
}

#[test]
fn read_one_byte_over_capacity_overflows() {
    let bytes = vec![b'A'; BUFFER_SIZE + 1];
    assert_eq!(GpibController::read_data(&bytes), Err(GpibControllerError::BufferOverflow));
}

#[test]
fn read_of_nothing_is_empty_text() {
    assert_eq!(GpibController::read_data(&[]), Ok(String::new()));
}

#[test]
fn read_of_invalid_utf8_is_malformed() {
    assert_eq!(GpibController::read_data(&[b'o', b'k', 0xc3]), Err(GpibControllerError::MalformedResponse));
    assert_eq!(GpibController::read_data(&[0x80]), Err(GpibControllerError::MalformedResponse));
}

#[test]
fn read_of_utf8_round_trips() {
    let text = "+1.000E+00 \u{b5}A \u{2126}\n";
    assert_eq!(GpibController::read_data(text.as_bytes()), Ok(text.to_string()));
}

#[test]
fn end_to_end_send_to_skips_redundant_selection() {
    let mut writes = Vec::new();
    let mut session = connect_mock(b"16\n", &mut writes).unwrap();
    assert_eq!(session.current_address(), 16);
    writes.clear();

    let plan = session.gpib_send_to_addr("*IDN?\n", 16).unwrap();
    perform(&mut session, plan, &mut writes);
    assert_eq!(writes, vec!["*IDN?\n".to_string()]);
    writes.clear();

    let plan = session.gpib_send_to_addr("*RST\n", 3).unwrap();
    assert_eq!(plan[0].selects(), Some(3));
    assert_eq!(plan[1].selects(), None);
    perform(&mut session, plan, &mut writes);
    assert_eq!(writes, vec!["++addr 3\n".to_string(), "*RST\n".to_string()]);
    assert_eq!(session.current_address(), 3);
}

#[test]
fn reselecting_an_address_writes_once() {
    for a in (0u8..=30).chain(96u8..=126) {
        let mut session = GpibController::unset();
        let mut writes = Vec::new();
        let first = session.set_address(a).unwrap();
        perform(&mut session, first, &mut writes);
        let second = session.set_address(a).unwrap();
        assert!(second.is_empty());
        assert_eq!(writes, vec![format!("++addr {}\n", a)]);
        assert_eq!(session.current_address(), a);
    }
}

#[test]
fn invalid_addresses_are_refused_without_writes() {
    let session = GpibController::with_address(4);
    for a in (31u8..=95).chain(127u8..=255) {
        assert_eq!(session.set_address(a).err(), Some(GpibControllerError::InvalidAddress(a)));
        assert_eq!(session.gpib_send_to_addr("*RST\n", a).err(), Some(GpibControllerError::InvalidAddress(a)));
    }
}

#[test]
fn failed_selection_write_keeps_the_address() {
    let mut session = GpibController::with_address(16);
    let plan = session.set_address(7).unwrap();
    assert_eq!(plan.len(), 1);
    assert_eq!(plan[0].command(), "++addr 7\n");
    let r = session.record_write(&plan[0], Err("broken pipe".to_string()));
    assert_eq!(r, Err(GpibControllerError::TransportError("broken pipe".to_string())));
    assert_eq!(session.current_address(), 16);
}

#[test]
fn raw_data_is_sent_verbatim() {
    let t = GpibController::send_raw_data("VOLT 5.0;CURR 1.0\n");
    assert_eq!(t.command(), "VOLT 5.0;CURR 1.0\n");
    assert_eq!(t.selects(), None);
    let mut session = GpibController::with_address(9);
    assert_eq!(session.record_write(&t, Ok(18)), Ok(18));
    assert_eq!(session.current_address(), 9);
}

#[test]
fn unset_session_reports_the_sentinel() {
    assert_eq!(GpibController::unset().current_address(), 255);
}

#[test]
fn address_reply_is_trimmed_and_parsed() {
    assert_eq!(GpibController::try_new_from(b" 12 \r\n").unwrap().current_address(), 12);
    assert_eq!(GpibController::try_new_from(b"+7\n").unwrap().current_address(), 7);
    assert_eq!(GpibController::try_new_from(b"256\n").err(), Some(GpibControllerError::IntegerParseError));
    assert_eq!(GpibController::try_new_from(b"-1\n").err(), Some(GpibControllerError::IntegerParseError));
    assert_eq!(GpibController::try_new_from(b"\n").err(), Some(GpibControllerError::IntegerParseError));
    assert_eq!(GpibController::from_address_reply("30").unwrap().current_address(), 30);
    assert_eq!(GpibController::from_address_reply(" 30").err(), Some(GpibControllerError::IntegerParseError));
}

#[test]
fn decimal_numbers_are_parsed_like_std() {
    for s in ["0", "9", "10", "255", "256", "+0", "+", "", "007", "1a", "-0", "99999"] {
        assert_eq!(parse_u8(s), s.parse::<u8>().ok(), "{}", s);
    }
}

#[test]
fn decimal_strings_have_no_leading_zeros() {
    assert_eq!(decimal_string(0), "0");
    assert_eq!(decimal_string(7), "7");
    assert_eq!(decimal_string(42), "42");
    assert_eq!(decimal_string(100), "100");
    assert_eq!(decimal_string(126), "126");
    assert_eq!(decimal_string(255), "255");
}

#[test]
fn address_ranges_have_the_documented_bounds() {
    for a in 0u8..=255 {
        assert_eq!(is_valid_address(a), a <= 30 || (96..=126).contains(&a), "{}", a);
    }
}
