use hsmattest::function::{build_unboxed_handlers, Func, FuncState, Handler};
use hsmattest::state_transitions::register_functions;
use hsmattest::{KeyMode, Machine, Mode, State};

fn be32(n: u32) -> [u8; 4] {
    n.to_be_bytes()
}

fn tlv(tag: u32, value: &[u8]) -> Vec<u8> {
    let mut out = Vec::new();
    out.extend_from_slice(&be32(tag));
    out.extend_from_slice(&be32(value.len() as u32));
    out.extend_from_slice(value);
    out
}

fn attribute_list(attrs: &[Vec<u8>]) -> Vec<u8> {
    let mut out = Vec::new();
    out.extend_from_slice(&be32(attrs.len() as u32));
    out.extend_from_slice(&[0xEE; 4]);
    for attr in attrs {
        out.extend_from_slice(attr);
    }
    out
}

/// A blob whose attribute region starts `padding` bytes after the size fields.
fn blob(
    total_size: u32,
    padding: usize,
    secondkey_offset: u16,
    primary: &[Vec<u8>],
    secondary: Option<&[Vec<u8>]>,
    signature: &[u8],
) -> Vec<u8> {
    let mut out = vec![0xA5u8; 8];
    out.extend_from_slice(&be32(total_size));
    out.extend_from_slice(&be32(0));
    out.extend_from_slice(&vec![0x11u8; padding]);
    // the byte at the attribute offset, and the three bytes dropped after it
    out.extend_from_slice(&[0x22; 4]);
    out.extend_from_slice(&[0x00, 0x1C]);
    out.extend_from_slice(&secondkey_offset.to_be_bytes());
    out.extend_from_slice(&[0x33; 4]);
    out.extend_from_slice(&attribute_list(primary));
    if let Some(attrs) = secondary {
        out.extend_from_slice(&[0x44; 4]);
        out.extend_from_slice(&attribute_list(attrs));
    }
    out.extend_from_slice(signature);
    out
}

fn signature_bytes() -> Vec<u8> {
    (0..256u32).map(|i| i as u8).collect()
}

fn signature_hex() -> String {
    signature_bytes().iter().map(|b| format!("{:02x}", b)).collect()
}

fn symmetric_blob() -> Vec<u8> {
    blob(
        16 + 256,
        0,
        0,
        &[tlv(0x0000, &[0x04]), tlv(0x0003, &[b'k', b'e', b'y', b'1', 0x00])],
        None,
        &signature_bytes(),
    )
}

fn asymmetric_blob() -> Vec<u8> {
    blob(
        16 + 256,
        0,
        0x0123,
        &[tlv(0x0000, &[0x02]), tlv(0x0121, &[0x00, 0x00, 0x08, 0x00])],
        Some(&[tlv(0x0000, &[0x03]), tlv(0x0103, &[0x01])]),
        &signature_bytes(),
    )
}

fn rec(mode: KeyMode, key: &str, value: &str) -> (KeyMode, String, String) {
    (mode, key.to_string(), value.to_string())
}

#[test]
fn new_machine_is_before_the_first_byte() {
    let m = Machine::new();
    assert_eq!(m.state(), State::SKIP8);
    assert_eq!(m.previous(), State::Initial);
    assert_eq!(m.get_index(), 0);
    assert_eq!(m.current_count(), 0);
    assert_eq!(m.get_mode(), Mode::Asymmetric);
    assert_eq!(m.get_keymode(), KeyMode::Primary);
    assert_eq!(m.signature_len, 256);
    assert_eq!(m.attr_offset, 0);
    assert!(m.into_output().take().is_empty());
    assert_eq!(Machine::new_with_signature_len(64).signature_len, 64);
}

#[test]
fn symmetric_key_two_attrs() {
    let mut m = Machine::new();
    let input = symmetric_blob();
    m.run_buf(&input);
    assert_eq!(m.get_mode(), Mode::Symmetric);
    assert_eq!(m.get_keymode(), KeyMode::Primary);
    assert_eq!(m.total_size, 272);
    assert_eq!(m.buff_size, 0);
    assert_eq!(m.attr_offset, 16);
    assert_eq!(m.firstkey_offset, 0x1C);
    assert_eq!(m.secondkey_offset, 0);
    assert_eq!(m.attr_count, 2);
    assert_eq!(m.attrs_processed, 2);
    assert_eq!(m.state(), State::Signature);
    assert_eq!(m.get_index(), input.len());
    assert_eq!(
        m.into_output().take(),
        vec![
            rec(KeyMode::Primary, "OBJ_ATTR_CLASS", "secret-key (symmetric)"),
            rec(KeyMode::Primary, "OBJ_ATTR_LABEL", "key1"),
            rec(KeyMode::Primary, "SIGNATURE", &signature_hex()),
        ]
    );
}

#[test]
fn symmetric_key_json_has_one_primary_section() {
    let mut m = Machine::new();
    m.run_buf(&symmetric_blob());
    let json = String::from_utf8(m.into_output().to_json_bytes()).unwrap();
    let expected = format!(
        "[{{\"mode\": \"Primary\", \"pairs\": {{\"OBJ_ATTR_CLASS\":\"secret-key (symmetric)\",\"OBJ_ATTR_LABEL\":\"key1\",\"SIGNATURE\":\"{}\"}}}}]",
        signature_hex()
    );
    assert_eq!(json, expected);
}

#[test]
fn asymmetric_key_has_a_secondary_list() {
    let mut m = Machine::new();
    m.run_buf(&asymmetric_blob());
    assert_eq!(m.get_mode(), Mode::Asymmetric);
    assert_eq!(m.get_keymode(), KeyMode::Secondary);
    assert_eq!(m.secondkey_offset, 0x0123);
    assert_eq!(m.attr_count, 2);
    assert_eq!(m.attrs_processed, 4);
    assert_eq!(m.state(), State::Signature);
    assert_eq!(
        m.into_output().take(),
        vec![
            rec(KeyMode::Primary, "OBJ_ATTR_CLASS", "public-key"),
            rec(KeyMode::Primary, "OBJ_ATTR_MODULUS_BITS", "2048"),
            rec(KeyMode::Secondary, "OBJ_ATTR_CLASS", "private-key"),
            rec(KeyMode::Secondary, "OBJ_ATTR_SENSITIVE", "true"),
            rec(KeyMode::Secondary, "SIGNATURE", &signature_hex()),
        ]
    );
}

#[test]
fn asymmetric_key_json_has_two_sections_in_order() {
    let mut m = Machine::new();
    m.run_buf(&asymmetric_blob());
    let json = String::from_utf8(m.into_output().to_json_bytes()).unwrap();
    let expected = format!(
        "[{{\"mode\": \"Primary\", \"pairs\": {{\"OBJ_ATTR_CLASS\":\"public-key\",\"OBJ_ATTR_MODULUS_BITS\":\"2048\"}}}}, {{\"mode\": \"Secondary\", \"pairs\": {{\"OBJ_ATTR_CLASS\":\"private-key\",\"OBJ_ATTR_SENSITIVE\":\"true\",\"SIGNATURE\":\"{}\"}}}}]",
        signature_hex()
    );
    assert_eq!(json, expected);
}

#[test]
fn unknown_tag_is_emitted_as_hex() {
    let mut m = Machine::new();
    m.run_buf(&blob(272, 0, 0, &[tlv(0xDEADBEEF, &[0x01, 0x02, 0x03])], None, &signature_bytes()));
    assert_eq!(m.attrs_processed, 1);
    let records = m.into_output().take();
    assert_eq!(records[0], rec(KeyMode::Primary, "UNKNOWN", "010203"));
    assert_eq!(records.len(), 2);
}

#[test]
fn decoder_fallback_is_emitted_as_raw_bytes() {
    let mut m = Machine::new();
    m.run_buf(&blob(272, 0, 0, &[tlv(0x0000, &[0x09])], None, &signature_bytes()));
    let records = m.into_output().take();
    assert_eq!(records[0], rec(KeyMode::Primary, "OBJ_ATTR_CLASS", "[9]"));
}

#[test]
fn chunking_does_not_change_the_output() {
    let input = symmetric_blob();
    let mut whole = Machine::new();
    whole.run_buf(&input);
    let expected = whole.into_output().to_json_bytes();

    let mut single = Machine::new();
    for b in &input {
        single.run_buf(&[*b]);
    }
    assert_eq!(single.into_output().to_json_bytes(), expected);

    let mut bytewise = Machine::new();
    for b in &input {
        bytewise.parse(*b);
    }
    assert_eq!(bytewise.into_output().to_json_bytes(), expected);
}

#[test]
fn every_chunk_size_gives_the_same_machine() {
    for input in [symmetric_blob(), asymmetric_blob()] {
        let mut whole = Machine::new();
        whole.run_buf(&input);
        let state = whole.state();
        let processed = whole.attrs_processed;
        let expected = whole.into_output().take();
        for size in 1..=input.len() {
            let mut m = Machine::new();
            for chunk in input.chunks(size) {
                m.run_buf(chunk);
            }
            assert_eq!(m.get_index(), input.len());
            assert_eq!(m.state(), state);
            assert_eq!(m.attrs_processed, processed);
            assert_eq!(m.into_output().take(), expected, "chunk size {}", size);
        }
    }
}

#[test]
fn empty_chunks_change_nothing() {
    let input = symmetric_blob();
    let mut m = Machine::new();
    m.run_buf(&[]);
    assert_eq!(m.get_index(), 0);
    m.run_buf(&input[..40]);
    m.run_buf(&[]);
    m.run_buf(&input[40..]);
    assert_eq!(m.attrs_processed, 2);
    assert_eq!(m.into_output().take().len(), 3);
}

#[test]
fn underrun_after_the_first_length_word() {
    let input = symmetric_blob();
    // 36 bytes lead to the first attribute; its type and length take 8 more
    let mut m = Machine::new();
    m.run_buf(&input[..44]);
    assert_eq!(m.state(), State::TLVValue);
    assert_eq!(m.tlv_type, 0);
    assert_eq!(m.tlv_len, 1);
    assert_eq!(m.attr_count, 2);
    assert_eq!(m.attrs_processed, 0);
    assert!(m.into_output().take().is_empty());
}

#[test]
fn underrun_in_the_signature_emits_no_signature() {
    let input = symmetric_blob();
    let mut m = Machine::new();
    m.run_buf(&input[..input.len() - 1]);
    assert_eq!(m.state(), State::Signature);
    assert_eq!(m.current_count(), 255);
    assert_eq!(m.attrs_processed, 2);
    assert_eq!(m.into_output().take().len(), 2);
}

#[test]
fn cursor_counts_the_bytes() {
    let input = asymmetric_blob();
    let mut m = Machine::new();
    for (n, b) in input.iter().enumerate() {
        assert_eq!(m.get_index(), n);
        m.parse(*b);
        assert_eq!(m.current_byte(), *b);
    }
    assert_eq!(m.get_index(), input.len());
}

#[test]
fn states_follow_the_layout() {
    let input = symmetric_blob();
    let mut m = Machine::new();
    let mut seen = vec![m.state()];
    for b in &input {
        let before = m.state();
        m.parse(*b);
        assert_eq!(m.previous(), before);
        if m.state() != before {
            assert_eq!(m.current_count(), 0);
            assert_eq!(m.be_int, 0);
            seen.push(m.state());
        }
    }
    assert_eq!(
        seen,
        vec![
            State::SKIP8,
            State::TOTALSIZE4,
            State::BUFSIZE4,
            State::SkipToOffset,
            State::SkipU16_2,
            State::OffsetPubkey16,
            State::OffsetPrivkey16,
            State::Skip4,
            State::AttrLen,
            State::SkipAttr4,
            State::TLVType,
            State::TLVLen,
            State::TLVValue,
            State::TLVType,
            State::TLVLen,
            State::TLVValue,
            State::Signature,
        ]
    );
}

#[test]
fn offset_is_total_less_buffer_less_signature() {
    let mut m = Machine::new_with_signature_len(4);
    let mut input = vec![0u8; 8];
    input.extend_from_slice(&be32(40));
    input.extend_from_slice(&be32(6));
    input.extend_from_slice(&[0u8; 14]);
    m.run_buf(&input);
    assert_eq!(m.total_size, 40);
    assert_eq!(m.buff_size, 6);
    assert_eq!(m.attr_offset, 30);
    assert_eq!(m.state(), State::SkipToOffset);
    m.parse(0);
    assert_eq!(m.state(), State::SkipU16_2);
    assert_eq!(m.attr_offset, 30);
}

#[test]
fn padding_is_skipped_up_to_the_offset() {
    let mut m = Machine::new();
    m.run_buf(&blob(
        16 + 25 + 256,
        25,
        0,
        &[tlv(0x0002, &[0x01])],
        None,
        &signature_bytes(),
    ));
    assert_eq!(m.attr_offset, 41);
    assert_eq!(m.attrs_processed, 1);
    assert_eq!(
        m.into_output().take(),
        vec![
            rec(KeyMode::Primary, "OBJ_ATTR_PRIVATE", "true"),
            rec(KeyMode::Primary, "SIGNATURE", &signature_hex()),
        ]
    );
}

#[test]
fn offset_that_would_be_negative_is_clamped_to_zero() {
    let mut m = Machine::new();
    let input = blob(
        0x40,
        0,
        0,
        &[tlv(0x0000, &[0x04]), tlv(0x0003, &[b'k', b'e', b'y', b'1', 0x00])],
        None,
        &signature_bytes(),
    );
    m.run_buf(&input);
    assert_eq!(m.total_size, 0x40);
    assert_eq!(m.attr_offset, 0);
    // the cursor is past the offset when it is fixed: the machine stays
    assert_eq!(m.state(), State::SkipToOffset);
    assert_eq!(m.get_mode(), Mode::Asymmetric);
    assert_eq!(m.attrs_processed, 0);
    assert_eq!(m.get_index(), input.len());
    assert!(m.into_output().take().is_empty());
}

#[test]
fn signature_length_can_be_set() {
    let sig: Vec<u8> = vec![0xAB; 64];
    let mut m = Machine::new_with_signature_len(64);
    m.run_buf(&blob(16 + 64, 0, 0, &[tlv(0x0002, &[0x00])], None, &sig));
    assert_eq!(
        m.into_output().take(),
        vec![
            rec(KeyMode::Primary, "OBJ_ATTR_PRIVATE", "false"),
            rec(KeyMode::Primary, "SIGNATURE", &"ab".repeat(64)),
        ]
    );
    let mut later = Machine::new();
    later.set_signature_len(64);
    later.run_buf(&blob(16 + 64, 0, 0, &[tlv(0x0002, &[0x00])], None, &sig));
    assert_eq!(later.into_output().take().len(), 2);
}

#[test]
fn bytes_after_the_signature_are_not_emitted() {
    let mut input = symmetric_blob();
    input.extend_from_slice(&[0x77; 10]);
    let mut m = Machine::new();
    m.run_buf(&input);
    assert_eq!(m.state(), State::Signature);
    assert_eq!(m.current_count(), 266);
    assert_eq!(m.into_output().take().len(), 3);
}

#[test]
fn attribute_of_length_zero_is_never_completed() {
    let mut m = Machine::new();
    m.run_buf(&blob(272, 0, 0, &[tlv(0x0001, &[])], None, &[0x55; 20]));
    assert_eq!(m.state(), State::TLVValue);
    assert_eq!(m.attrs_processed, 0);
    assert_eq!(m.current_count(), 20);
}

#[test]
fn empty_return_stack_keeps_the_state() {
    let mut m = Machine::new();
    m.set_state(State::TLVLen);
    assert_eq!(m.previous(), State::SKIP8);
    m.run_buf(&[0, 0, 0, 2, 0xAA, 0xBB, 0xCC]);
    assert_eq!(m.state(), State::TLVValue);
    assert_eq!(m.attrs_processed, 1);
    assert_eq!(m.current_count(), 3);
    assert_eq!(m.tlv_len, 0);
    assert_eq!(m.into_output().take(), vec![rec(KeyMode::Primary, "OBJ_ATTR_CLASS", "[170, 187]")]);
}

#[test]
fn registers_can_be_driven_by_hand() {
    let mut m = Machine::new();
    assert_eq!(m.next_state(), State::TOTALSIZE4);
    assert_eq!(m.inc_count(), 1);
    assert_eq!(m.inc_count(), 2);
    assert_eq!(m.current_count(), 2);
    m.be_int = 7;
    m.reset_count();
    assert_eq!(m.current_count(), 0);
    assert_eq!(m.be_int, 0);
    m.push_state(State::Signature);
    m.push_state(State::TLVType);
    assert_eq!(m.pop_state(), Some(State::TLVType));
    assert_eq!(m.pop_state(), Some(State::Signature));
    assert_eq!(m.pop_state(), None);
    m.set_mode(Mode::Symmetric);
    assert_eq!(m.get_mode(), Mode::Symmetric);
    m.set_keymode(KeyMode::Secondary);
    assert_eq!(m.get_keymode(), KeyMode::Secondary);
    m.set_total_size(9);
    m.set_buf_size(3);
    assert_eq!((m.total_size, m.buff_size), (9, 3));
    m.stack_mut().push(1);
    assert_eq!(m.stack_mut().len(), 1);
    m.set_state(State::Unknown);
    assert_eq!(m.next_state(), State::Unknown);
    m.emit("k".to_string(), "v".to_string());
    assert_eq!(m.into_output().take(), vec![rec(KeyMode::Secondary, "k", "v")]);
}

#[test]
fn unit_handler_keeps_the_state() {
    let mut m = Machine::new();
    m.map_func(State::SKIP8.to(State::SKIP8), Func::Unit);
    m.run_buf(&[0; 20]);
    assert_eq!(m.state(), State::SKIP8);
    assert_eq!(m.current_count(), 0);
    assert_eq!(m.get_index(), 20);
    register_functions(&mut m);
    m.run_buf(&[0; 8]);
    assert_eq!(m.state(), State::TOTALSIZE4);
}

#[test]
fn run_funcs_runs_the_registered_handler() {
    let mut m = Machine::new();
    assert_eq!(m.run_funcs(State::SKIP8, State::SKIP8), None);
    assert_eq!(m.current_count(), 1);
    assert_eq!(m.run_funcs(State::SKIP8, State::TOTALSIZE4), None);
    assert_eq!(m.current_count(), 1);
    m.map_func(vec![State::SKIP8, State::Initial].to(State::Unknown), Func::Fun(Handler::Skip4));
    // the handler of `Skip4` asks for the state it is in until its fourth byte
    assert_eq!(m.run_funcs(State::Initial, State::Unknown), Some(State::SKIP8));
    assert_eq!(m.run_funcs(State::SKIP8, State::Unknown), Some(State::SKIP8));
    assert_eq!(m.run_funcs(State::SKIP8, State::Unknown), Some(State::TOTALSIZE4));
}

#[test]
fn grid_starts_without_handlers() {
    let grid = build_unboxed_handlers();
    assert_eq!(grid.len(), 17);
    for row in &grid {
        assert_eq!(row.len(), 17);
        assert!(row.iter().all(|cell| *cell == Func::Unit));
    }
}

#[test]
fn any_lists_every_state() {
    let all = State::any();
    assert_eq!(all.len(), 17);
    assert_eq!(all[0], State::Initial);
    assert_eq!(all[1], State::SKIP8);
    assert_eq!(all[15], State::Signature);
    assert_eq!(all[16], State::Unknown);
    for (n, s) in all.iter().enumerate() {
        assert_eq!(State::from_primitive(n as u8), *s);
        assert_eq!(s.to_primitive() as usize, n);
    }
    assert_eq!(State::from_primitive(200), State::Unknown);
    let map = State::any().to(State::AttrLen);
    assert_eq!(map.0, all);
    assert_eq!(map.1, State::AttrLen);
}

#[test]
fn defaults_are_asymmetric_primary_unknown() {
    assert_eq!(Mode::default(), Mode::Asymmetric);
    assert_eq!(KeyMode::default(), KeyMode::Primary);
    assert_eq!(State::default(), State::Unknown);
}

#[test]
fn list_without_attributes_still_reads_one() {
    let mut input = vec![0xA5u8; 8];
    input.extend_from_slice(&be32(272));
    input.extend_from_slice(&be32(0));
    input.extend_from_slice(&[0x22; 4]);
    input.extend_from_slice(&[0, 0, 0, 0]);
    input.extend_from_slice(&[0x33; 4]);
    input.extend_from_slice(&be32(0));
    input.extend_from_slice(&[0xEE; 4]);
    input.extend_from_slice(&tlv(0x0002, &[1]));
    let mut m = Machine::new();
    m.run_buf(&input);
    assert_eq!(m.attr_count, 0);
    assert_eq!(m.attrs_processed, 1);
    assert_eq!(m.state(), State::Signature);
}

#[test]
fn feed_delivers_every_byte_while_there_is_room() {
    let input = asymmetric_blob();
    let mut fed = Machine::new();
    assert!(fed.has_room());
    assert_eq!(fed.feed(&input), input.len());
    assert_eq!(fed.feed(&[]), 0);
    let mut run = Machine::new();
    run.run_buf(&input);
    assert_eq!(fed.get_index(), run.get_index());
    assert_eq!(fed.state(), run.state());
    assert_eq!(fed.into_output().take(), run.into_output().take());
}

#[test]
fn feed_stops_where_a_counter_is_at_its_limit() {
    let mut m = Machine::new();
    m.attrs_processed = u32::MAX;
    assert!(!m.has_room());
    assert_eq!(m.feed(&[1, 2, 3]), 0);
    assert_eq!(m.get_index(), 0);
    assert_eq!(m.state(), State::SKIP8);

    let mut n = Machine::new();
    n.set_state(State::TLVLen);
    n.run_buf(&[0, 0, 0, 9]);
    n.attrs_processed = u32::MAX - 1;
    // the value completes at the ninth byte; the count of attributes is then at its limit
    assert_eq!(n.feed(&[7; 20]), 9);
    assert_eq!(n.attrs_processed, u32::MAX);
    assert_eq!(n.get_index(), 13);
}

#[test]
fn attributes_processed_equal_the_count_when_the_list_ends() {
    for input in [symmetric_blob(), asymmetric_blob()] {
        let mut m = Machine::new();
        let mut checked = false;
        for b in &input {
            let before = m.state();
            m.parse(*b);
            if before == State::TLVValue
                && m.state() != State::TLVValue
                && m.state() != State::TLVType
                && m.get_keymode() == KeyMode::Primary
            {
                assert_eq!(m.attrs_processed, m.attr_count);
                checked = true;
            }
        }
        assert!(checked);
    }
}

#[test]
fn attribute_offset_stays_once_it_is_set() {
    let input = blob(16 + 9 + 256, 9, 1, &[tlv(2, &[1])], Some(&[tlv(2, &[0])]), &signature_bytes());
    let mut m = Machine::new();
    let mut fixed = 0;
    for b in &input {
        m.parse(*b);
        if fixed != 0 {
            assert_eq!(m.attr_offset, fixed);
        }
        fixed = m.attr_offset;
    }
    assert_eq!(fixed, 25);
}

#[test]
fn return_stack_is_empty_after_a_whole_blob() {
    for input in [symmetric_blob(), asymmetric_blob()] {
        let mut m = Machine::new();
        m.run_buf(&input);
        assert_eq!(m.pop_state(), None);
        assert!(m.stack_mut().is_empty());
    }
}

#[test]
fn return_stack_schedules_the_list_and_what_follows() {
    let input = blob(
        272,
        0,
        9,
        &[tlv(2, &[1]), tlv(2, &[1]), tlv(2, &[1])],
        Some(&[tlv(2, &[0])]),
        &signature_bytes(),
    );
    let mut m = Machine::new();
    // up to the first tag: two TLVType above SecondaryKey above Signature
    m.run_buf(&input[..36]);
    assert_eq!(m.state(), State::TLVType);
    assert_eq!(m.attr_count, 3);
    assert_eq!(m.pop_state(), Some(State::TLVType));
    assert_eq!(m.pop_state(), Some(State::TLVType));
    assert_eq!(m.pop_state(), Some(State::SecondaryKey));
    assert_eq!(m.pop_state(), Some(State::Signature));
    assert_eq!(m.pop_state(), None);
}

#[test]
fn second_key_offset_of_one_byte_value_is_asymmetric() {
    let mut m = Machine::new();
    m.run_buf(&blob(272, 0, 0x0100, &[tlv(2, &[1])], Some(&[tlv(2, &[0])]), &signature_bytes()));
    assert_eq!(m.secondkey_offset, 0x0100);
    assert_eq!(m.get_mode(), Mode::Asymmetric);
    assert_eq!(m.get_keymode(), KeyMode::Secondary);
    assert_eq!(m.attrs_processed, 2);
}

#[test]
fn value_longer_than_a_chunk_is_gathered_across_chunks() {
    let value: Vec<u8> = (0..1000u32).map(|i| (i % 251) as u8).collect();
    let input = blob(272, 0, 0, &[tlv(0x0120, &value)], None, &signature_bytes());
    let mut m = Machine::new();
    for chunk in input.chunks(7) {
        m.run_buf(chunk);
    }
    let records = m.into_output().take();
    let hex: String = value.iter().map(|b| format!("{:02x}", b)).collect();
    assert_eq!(records[0], rec(KeyMode::Primary, "OBJ_ATTR_MODULUS", &hex));
    assert_eq!(records.len(), 2);
}
