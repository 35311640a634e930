use rimecmd::input_parser::ParserStateImpl;
use rimecmd::terminal_interface::Input;

#[test]
fn ascii_alpha() {
    if let ParserStateImpl::Completed(Input::Char('c')) =
        ParserStateImpl::Start.consume_byte('c' as u8)
    {
    } else {
        panic!();
    }
}

#[test]
fn ascii_del() {
    // The ascii code sent by backspace key
    if let ParserStateImpl::Completed(Input::Del) = ParserStateImpl::Start.consume_byte(0x7f) {
    } else {
        panic!();
    }
}

#[test]
fn ascii_nul() {
    // The ascii code sent by Ctrl-`
    if let ParserStateImpl::Completed(Input::Nul) = ParserStateImpl::Start.consume_byte(0x00) {
    } else {
        panic!();
    }
}

#[test]
fn up() {
    if let ParserStateImpl::Completed(Input::Up) = ParserStateImpl::Start
        .consume_byte(0x1b)
        .consume_byte(0x5b)
        .consume_byte(0x41)
    {
    } else {
        panic!();
    }
}

#[test]
fn down() {
    if let ParserStateImpl::Completed(Input::Down) = ParserStateImpl::Start
        .consume_byte(0x1b)
        .consume_byte(0x5b)
        .consume_byte(0x42)
    {
    } else {
        panic!();
    }
}

#[test]
fn right() {
    if let ParserStateImpl::Completed(Input::Right) = ParserStateImpl::Start
        .consume_byte(0x1b)
        .consume_byte(0x5b)
        .consume_byte(0x43)
    {
    } else {
        panic!();
    }
}

#[test]
fn left() {
    if let ParserStateImpl::Completed(Input::Left) = ParserStateImpl::Start
        .consume_byte(0x1b)
        .consume_byte(0x5b)
        .consume_byte(0x44)
    {
    } else {
        panic!();
    }
}

#[test]
fn insert() {
    if let ParserStateImpl::Completed(Input::Insert) = ParserStateImpl::Start
        .consume_byte(0x1b)
        .consume_byte(0x5b)
        .consume_byte(0x32)
        .consume_byte(0x7e)
    {
    } else {
        panic!();
    }
}

#[test]
fn delete() {
    if let ParserStateImpl::Completed(Input::Delete) = ParserStateImpl::Start
        .consume_byte(0x1b)
        .consume_byte(0x5b)
        .consume_byte(0x33)
        .consume_byte(0x7e)
    {
    } else {
        panic!();
    }
}

#[test]
fn page_up() {
    if let ParserStateImpl::Completed(Input::PageUp) = ParserStateImpl::Start
        .consume_byte(0x1b)
        .consume_byte(0x5b)
        .consume_byte(0x35)
        .consume_byte(0x7e)
    {
    } else {
        panic!();
    }
}

#[test]
fn page_down() {
    if let ParserStateImpl::Completed(Input::PageDown) = ParserStateImpl::Start
        .consume_byte(0x1b)
        .consume_byte(0x5b)
        .consume_byte(0x36)
        .consume_byte(0x7e)
    {
    } else {
        panic!();
    }
}

#[test]
fn utf8_2_bytes() {
    if let ParserStateImpl::Completed(Input::Char('ж')) = "ж"
        .as_bytes()
        .into_iter()
        .fold(ParserStateImpl::Start, |parser_state, byte| {
            parser_state.consume_byte(*byte)
        })
    {
    } else {
        panic!();
    }
}

#[test]
fn utf8_3_bytes() {
    if let ParserStateImpl::Completed(Input::Char('好')) = "好"
        .as_bytes()
        .into_iter()
        .fold(ParserStateImpl::Start, |parser_state, byte| {
            parser_state.consume_byte(*byte)
        })
    {
    } else {
        panic!();
    }
}

#[test]
fn utf8_4_bytes() {
    if let ParserStateImpl::Completed(Input::Char('𝝙')) = "𝝙"
        .as_bytes()
        .into_iter()
        .fold(ParserStateImpl::Start, |parser_state, byte| {
            parser_state.consume_byte(*byte)
        })
    {
    } else {
        panic!();
    }
}

#[test]
fn cursor_position_report() {
    if let ParserStateImpl::Completed(Input::CursorPositionReport { row: 12, col: 34 }) =
        ParserStateImpl::Start
            .consume_byte(0x1b)
            .consume_byte(0x5b)
            .consume_byte(b'1')
            .consume_byte(b'2')
            .consume_byte(0x3b)
            .consume_byte(b'3')
            .consume_byte(b'4')
            .consume_byte(b'R')
    {
    } else {
        panic!();
    }
}

#[test]
fn failed_sequence_resets_to_start() {
    let state = rimecmd::input_parser::ParserState::new();
    match state.consume_byte(0x01) {
        rimecmd::input_parser::ConsumeByteResult::Pending(next) => {
            // an unsupported control byte silently restarts the parser
            if let rimecmd::input_parser::ConsumeByteResult::Completed(Input::Char('x')) =
                next.consume_byte(b'x')
            {
            } else {
                panic!();
            }
        }
        _ => panic!(),
    }
}
