use kernel_core::keyboard::Key;
use kernel_core::keyboard::KeyDecoder;
use kernel_core::keyboard::KeyStreams;
use kernel_core::keyboard::ScancodeStream;
use kernel_core::keyboard::add_scancode;
use kernel_core::shell::Command;
use kernel_core::shell::LineEditor;
use kernel_core::shell::EditAction;
use kernel_core::shell::command_output;
use kernel_core::shell::parse_command;

#[test]
fn scancode_queue_is_fifo() {
    let mut s = ScancodeStream::new();
    assert_eq!(s.poll_next(), None);
    assert!(add_scancode(&mut s, 0x23));
    assert!(add_scancode(&mut s, 0x12));
    assert_eq!(s.poll_next(), Some(0x23));
    assert_eq!(s.poll_next(), Some(0x12));
    assert_eq!(s.poll_next(), None);
}

#[test]
fn scancode_queue_drops_when_full() {
    let mut s = ScancodeStream::new();
    for i in 0..100u32 {
        assert!(add_scancode(&mut s, (i % 256) as u8));
    }
    // The handler must not block: the 101st scancode is dropped.
    assert!(!add_scancode(&mut s, 0x55));
    assert_eq!(s.poll_next(), Some(0));
}

#[test]
fn add_scancode_wakes_the_reader() {
    let mut s = ScancodeStream::new();
    assert_eq!(s.poll_next(), None);
    assert!(s.waker.registered);
    add_scancode(&mut s, 0x1C);
    assert!(s.waker.ready);
}

/// Scancode-set-1 press codes for h, e, l, o and Enter.
const H: u8 = 0x23;
const E: u8 = 0x12;
const L: u8 = 0x26;
const O: u8 = 0x18;
const ENTER: u8 = 0x1C;

fn type_chars(dec: &mut KeyDecoder, codes: &[u8]) -> Vec<char> {
    let mut out = Vec::new();
    for &code in codes {
        // Press, then release (bit 7 set); only the press yields a key.
        if let Some(Key::Unicode(c)) = dec.decode(code) {
            out.push(c);
        }
        assert!(matches!(dec.decode(code | 0x80), None | Some(Key::Unicode(_)) | Some(Key::Raw(_))));
    }
    out
}

#[test]
fn decoder_translates_scancodes() {
    let mut dec = KeyDecoder::new();
    let chars = type_chars(&mut dec, &[H, E, L, L, O]);
    assert_eq!(chars, vec!['h', 'e', 'l', 'l', 'o']);
}

#[test]
fn key_streams_fan_out_to_everyone() {
    let mut streams = KeyStreams::new();
    let a = streams.register();
    let b = streams.register();
    let mut dec = KeyDecoder::new();
    let mut s = ScancodeStream::new();
    add_scancode(&mut s, H);
    while let Some(code) = s.poll_next() {
        kernel_core::keyboard::forward_scancode(&mut dec, &mut streams, code);
    }
    assert!(matches!(streams.poll_next(a), Some(Key::Unicode('h'))));
    assert!(matches!(streams.poll_next(b), Some(Key::Unicode('h'))));
    assert!(streams.poll_next(a).is_none());
}

#[test]
fn typing_hello_yields_world() {
    // The whole input path: scancodes through the decoder and line editor,
    // the submitted line through the parser, and the command's output.
    let mut dec = KeyDecoder::new();
    let mut editor = LineEditor::new();
    let mut submitted: Option<Vec<char>> = None;
    for &code in &[H, E, L, L, O, ENTER] {
        if let Some(key) = dec.decode(code) {
            if let EditAction::Submitted(line) = editor.handle_key(key) {
                submitted = Some(line);
            }
        }
        dec.decode(code | 0x80);
    }
    let line = submitted.expect("enter must submit the line");
    assert_eq!(line, vec!['h', 'e', 'l', 'l', 'o']);
    let cmd = parse_command(&line);
    assert!(matches!(cmd, Command::Hello));
    let out = command_output(cmd).unwrap();
    let text: String = out.into_iter().collect();
    assert_eq!(text, "world!");
}
