//! Keys and mouse of a terminal, as the bytes that a program reads.

use vstd::prelude::*;
use vstd::utf8::encode_utf8;

use crate::number::decimal;
use crate::number::write_decimal;

verus! {

#[derive(Debug, Clone, Copy, PartialEq, Eq, Structural)]
pub enum KeyCode {
    Char(char),
    Enter,
    Backspace,
    Tab,
    Esc,
    Up,
    Down,
    Right,
    Left,
    Home,
    End,
    PageUp,
    PageDown,
    Delete,
    Insert,
    Other,
}

#[derive(Debug, Clone, Copy, PartialEq, Eq, Structural)]
pub struct KeyModifiers {
    pub shift: bool,
    pub alt: bool,
    pub control: bool,
}

#[derive(Debug, Clone, Copy, PartialEq, Eq, Structural)]
pub struct KeyEvent {
    pub code: KeyCode,
    pub modifiers: KeyModifiers,
}

#[derive(Debug, Clone, Copy, PartialEq, Eq, Structural)]
pub enum MouseButton {
    Left,
    Middle,
    Right,
}

#[derive(Debug, Clone, Copy, PartialEq, Eq, Structural)]
pub enum MouseEventKind {
    Down(MouseButton),
    Up(MouseButton),
    Drag(MouseButton),
    Moved,
    ScrollUp,
    ScrollDown,
    ScrollLeft,
    ScrollRight,
}

#[derive(Debug, Clone, Copy, PartialEq, Eq, Structural)]
pub struct MouseEvent {
    pub kind: MouseEventKind,
    pub column: u16,
    pub row: u16,
    pub modifiers: KeyModifiers,
}

// ---------------------------------------------------------------------------
// Keys
// ---------------------------------------------------------------------------

/// The control character of a key.
pub open spec fn control_code(c: char) -> Option<u8> {
    if 'a' <= c <= 'z' {
        Some((c as int - 'a' as int + 1) as u8)
    } else if 'A' <= c <= 'Z' {
        Some((c as int - 'A' as int + 1) as u8)
    } else if c == '[' {
        Some(0x1bu8)
    } else if c == '\\' {
        Some(0x1cu8)
    } else if c == ']' {
        Some(0x1du8)
    } else if c == '^' {
        Some(0x1eu8)
    } else if c == '_' {
        Some(0x1fu8)
    } else if c == '?' {
        Some(0x7fu8)
    } else {
        None
    }
}

pub fn ctrl_byte(c: char) -> (r: Option<u8>)
    ensures
        r == control_code(c),
{
    if 'a' <= c && c <= 'z' {
        Some(c as u8 - 96)
    } else if 'A' <= c && c <= 'Z' {
        Some(c as u8 - 64)
    } else if c == '[' {
        Some(0x1b)
    } else if c == '\\' {
        Some(0x1c)
    } else if c == ']' {
        Some(0x1d)
    } else if c == '^' {
        Some(0x1e)
    } else if c == '_' {
        Some(0x1f)
    } else if c == '?' {
        Some(0x7f)
    } else {
        None
    }
}

/// The bytes of a key without `Alt`.
pub open spec fn plain_key_bytes(key: KeyEvent) -> Option<Seq<u8>> {
    match key.code {
        KeyCode::Char(c) => if key.modifiers.control {
            match control_code(c) {
                Some(b) => Some(seq![b]),
                None => None,
            }
        } else {
            Some(encode_utf8(seq![c]))
        },
        KeyCode::Enter => Some(seq![0x0du8]),
        KeyCode::Backspace => Some(seq![0x7fu8]),
        KeyCode::Tab => Some(seq![0x09u8]),
        KeyCode::Esc => Some(seq![0x1bu8]),
        KeyCode::Up => Some(seq![0x1bu8, 0x5bu8, 0x41u8]),
        KeyCode::Down => Some(seq![0x1bu8, 0x5bu8, 0x42u8]),
        KeyCode::Right => Some(seq![0x1bu8, 0x5bu8, 0x43u8]),
        KeyCode::Left => Some(seq![0x1bu8, 0x5bu8, 0x44u8]),
        KeyCode::Home => Some(seq![0x1bu8, 0x5bu8, 0x48u8]),
        KeyCode::End => Some(seq![0x1bu8, 0x5bu8, 0x46u8]),
        KeyCode::PageUp => Some(seq![0x1bu8, 0x5bu8, 0x35u8, 0x7eu8]),
        KeyCode::PageDown => Some(seq![0x1bu8, 0x5bu8, 0x36u8, 0x7eu8]),
        KeyCode::Delete => Some(seq![0x1bu8, 0x5bu8, 0x33u8, 0x7eu8]),
        KeyCode::Insert => Some(seq![0x1bu8, 0x5bu8, 0x32u8, 0x7eu8]),
        KeyCode::Other => None,
    }
}

/// The bytes of a key; `Alt` puts an escape in front.
pub open spec fn key_bytes(key: KeyEvent) -> Option<Seq<u8>> {
    match plain_key_bytes(key) {
        Some(b) => if key.modifiers.alt {
            Some(seq![0x1bu8] + b)
        } else {
            Some(b)
        },
        None => None,
    }
}

pub open spec fn opt_bytes(b: Option<Vec<u8>>) -> Option<Seq<u8>> {
    match b {
        Some(b) => Some(b@),
        None => None,
    }
}

/// The bytes of a text.
pub fn bytes_of(s: &str) -> (r: Vec<u8>)
    ensures
        r@ == encode_utf8(s@),
{
    let b = s.as_bytes();
    let mut r: Vec<u8> = Vec::new();
    let mut i: usize = 0;
    while i < b.len()
        invariant
            i <= b@.len(),
            r@ == b@.take(i as int),
        decreases b.len() - i,
    {
        r.push(b[i]);
        i = i + 1;
        assert(r@ =~= b@.take(i as int));
    }
    assert(b@.take(i as int) =~= b@);
    r
}

fn escape(tail: u8) -> (r: Vec<u8>)
    ensures
        r@ == seq![0x1bu8, 0x5bu8, tail],
{
    let mut r: Vec<u8> = Vec::new();
    r.push(0x1b);
    r.push(0x5b);
    r.push(tail);
    assert(r@ =~= seq![0x1bu8, 0x5bu8, tail]);
    r
}

fn escape_tilde(digit: u8) -> (r: Vec<u8>)
    ensures
        r@ == seq![0x1bu8, 0x5bu8, digit, 0x7eu8],
{
    let mut r = escape(digit);
    r.push(0x7e);
    assert(r@ =~= seq![0x1bu8, 0x5bu8, digit, 0x7eu8]);
    r
}

fn single(b: u8) -> (r: Vec<u8>)
    ensures
        r@ == seq![b],
{
    let mut r: Vec<u8> = Vec::new();
    r.push(b);
    assert(r@ =~= seq![b]);
    r
}

fn write_plain_key(key: KeyEvent) -> (r: Option<Vec<u8>>)
    ensures
        opt_bytes(r) == plain_key_bytes(key),
{
    match key.code {
        KeyCode::Char(c) => if key.modifiers.control {
            match ctrl_byte(c) {
                Some(b) => Some(single(b)),
                None => None,
            }
        } else {
            let mut s = String::new();
            s.push(c);
            assert(s@ =~= seq![c]);
            Some(bytes_of(s.as_str()))
        },
        KeyCode::Enter => Some(single(0x0d)),
        KeyCode::Backspace => Some(single(0x7f)),
        KeyCode::Tab => Some(single(0x09)),
        KeyCode::Esc => Some(single(0x1b)),
        KeyCode::Up => Some(escape(0x41)),
        KeyCode::Down => Some(escape(0x42)),
        KeyCode::Right => Some(escape(0x43)),
        KeyCode::Left => Some(escape(0x44)),
        KeyCode::Home => Some(escape(0x48)),
        KeyCode::End => Some(escape(0x46)),
        KeyCode::PageUp => Some(escape_tilde(0x35)),
        KeyCode::PageDown => Some(escape_tilde(0x36)),
        KeyCode::Delete => Some(escape_tilde(0x33)),
        KeyCode::Insert => Some(escape_tilde(0x32)),
        KeyCode::Other => None,
    }
}

pub fn key_to_bytes(key: KeyEvent) -> (r: Option<Vec<u8>>)
    ensures
        opt_bytes(r) == key_bytes(key),
{
    match write_plain_key(key) {
        Some(bytes) => if key.modifiers.alt {
            let mut prefixed = single(0x1b);
            let mut bytes = bytes;
            let ghost tail = bytes@;
            prefixed.append(&mut bytes);
            assert(prefixed@ =~= seq![0x1bu8] + tail);
            Some(prefixed)
        } else {
            Some(bytes)
        },
        None => None,
    }
}

// ---------------------------------------------------------------------------
// The mouse
// ---------------------------------------------------------------------------

pub open spec fn button_code(button: MouseButton) -> int {
    match button {
        MouseButton::Left => 0,
        MouseButton::Middle => 1,
        MouseButton::Right => 2,
    }
}

pub fn mouse_button_code(button: MouseButton) -> (r: u16)
    ensures
        r == button_code(button),
        r <= 2,
{
    match button {
        MouseButton::Left => 0,
        MouseButton::Middle => 1,
        MouseButton::Right => 2,
    }
}

pub open spec fn modifier_code(m: KeyModifiers) -> int {
    (if m.shift {
        4int
    } else {
        0
    }) + (if m.alt {
        8int
    } else {
        0
    }) + (if m.control {
        16int
    } else {
        0
    })
}

pub fn mouse_modifier_code(modifiers: KeyModifiers) -> (r: u16)
    ensures
        r == modifier_code(modifiers),
        r <= 28,
{
    let mut code: u16 = 0;
    if modifiers.shift {
        code = code + 4;
    }
    if modifiers.alt {
        code = code + 8;
    }
    if modifiers.control {
        code = code + 16;
    }
    code
}

pub open spec fn kind_code(kind: MouseEventKind) -> int {
    match kind {
        MouseEventKind::Down(b) => button_code(b),
        MouseEventKind::Up(b) => button_code(b),
        MouseEventKind::Drag(b) => button_code(b) + 32,
        MouseEventKind::Moved => 35,
        MouseEventKind::ScrollUp => 64,
        MouseEventKind::ScrollDown => 65,
        MouseEventKind::ScrollLeft => 66,
        MouseEventKind::ScrollRight => 67,
    }
}

pub open spec fn one_more(n: u16) -> int {
    if n < u16::MAX {
        n + 1
    } else {
        n as int
    }
}

/// The report of a mouse event, with positions from one on; `m` ends the release of a
/// button and `M` anything else.
pub open spec fn sgr_text(mouse: MouseEvent) -> Seq<char> {
    "\x1b[<"@ + decimal(kind_code(mouse.kind) + modifier_code(mouse.modifiers)) + ";"@ + decimal(
        one_more(mouse.column),
    ) + ";"@ + decimal(one_more(mouse.row)) + (if mouse.kind is Up {
        "m"@
    } else {
        "M"@
    })
}

pub fn mouse_to_sgr_bytes(mouse: MouseEvent) -> (r: Vec<u8>)
    ensures
        r@ == encode_utf8(sgr_text(mouse)),
{
    let base: u16 = match mouse.kind {
        MouseEventKind::Down(b) => mouse_button_code(b),
        MouseEventKind::Up(b) => mouse_button_code(b),
        MouseEventKind::Drag(b) => mouse_button_code(b) + 32,
        MouseEventKind::Moved => 35,
        MouseEventKind::ScrollUp => 64,
        MouseEventKind::ScrollDown => 65,
        MouseEventKind::ScrollLeft => 66,
        MouseEventKind::ScrollRight => 67,
    };
    let last = match mouse.kind {
        MouseEventKind::Up(_) => "m",
        _ => "M",
    };
    let code: u16 = base + mouse_modifier_code(mouse.modifiers);
    let code = write_decimal(code as i128);
    let column = write_decimal(mouse.column.saturating_add(1) as i128);
    let row = write_decimal(mouse.row.saturating_add(1) as i128);
    let mut text = "\x1b[<".to_owned();
    text.append(code.as_str());
    text.append(";");
    text.append(column.as_str());
    text.append(";");
    text.append(row.as_str());
    text.append(last);
    bytes_of(text.as_str())
}

// ---------------------------------------------------------------------------
// Whether a program wants the mouse
// ---------------------------------------------------------------------------

pub open spec fn is_digit_byte(b: u8) -> bool {
    0x30 <= b <= 0x39
}

pub open spec fn bytes_value(s: Seq<u8>) -> int
    decreases s.len(),
{
    if s.len() == 0 {
        0
    } else {
        bytes_value(s.drop_last()) * 10 + (s.last() as int - 0x30)
    }
}

pub open spec fn all_digit_bytes(s: Seq<u8>) -> bool {
    s.len() > 0 && forall|i: int| 0 <= i < s.len() ==> is_digit_byte(#[trigger] s[i])
}

/// The number from 0 to 65535 that the bytes write, after an optional `+`.
pub open spec fn number_in(s: Seq<u8>) -> Option<int> {
    let body = if s.len() > 0 && s[0] == 0x2b {
        s.drop_first()
    } else {
        s
    };
    if all_digit_bytes(body) && bytes_value(body) <= 0xffff {
        Some(bytes_value(body))
    } else {
        None
    }
}

/// The modes in which a program hears of the mouse.
pub open spec fn is_mouse_mode(n: int) -> bool {
    n == 1000 || n == 1002 || n == 1003 || n == 1005 || n == 1006 || n == 1015
}

/// The part of the parameters from `from` up to the next `;`.
pub open spec fn part_end(params: Seq<u8>, from: int) -> int
    decreases params.len() - from,
{
    if from < 0 || from >= params.len() || params[from] == 0x3b {
        from
    } else {
        part_end(params, from + 1)
    }
}

pub proof fn lemma_part_end(params: Seq<u8>, from: int)
    requires
        0 <= from <= params.len(),
    ensures
        from <= part_end(params, from) <= params.len(),
        part_end(params, from) < params.len() ==> params[part_end(params, from)] == 0x3b,
    decreases params.len() - from,
{
    if from < params.len() && params[from] != 0x3b {
        lemma_part_end(params, from + 1);
    }
}

/// One of the parts from `from` on, between the `;`, is the number of a mouse mode.
pub open spec fn lists_mouse_mode(params: Seq<u8>, from: int) -> bool
    decreases params.len() - from + 1,
{
    if from < 0 || from > params.len() {
        false
    } else {
        let end = part_end(params, from);
        if end < from || end > params.len() {
            false
        } else {
            let n = number_in(params.subrange(from, end));
            (n is Some && is_mouse_mode(n->0)) || lists_mouse_mode(params, end + 1)
        }
    }
}

proof fn lemma_bytes_value_grows(s: Seq<u8>, i: int)
    requires
        0 <= i <= s.len(),
        forall|j: int| 0 <= j < s.len() ==> is_digit_byte(#[trigger] s[j]),
    ensures
        0 <= bytes_value(s.take(i)) <= bytes_value(s),
    decreases s.len() - i,
{
    if i == s.len() {
        assert(s.take(i) =~= s);
        lemma_bytes_value_low(s);
    } else {
        lemma_bytes_value_grows(s, i + 1);
        assert(s.take(i + 1).drop_last() =~= s.take(i));
        lemma_bytes_value_low(s.take(i));
    }
}

proof fn lemma_bytes_value_low(s: Seq<u8>)
    requires
        forall|j: int| 0 <= j < s.len() ==> is_digit_byte(#[trigger] s[j]),
    ensures
        0 <= bytes_value(s),
    decreases s.len(),
{
    if s.len() > 0 {
        lemma_bytes_value_low(s.drop_last());
    }
}

#[verifier::loop_isolation(false)]
fn read_number(params: &[u8], from: usize, end: usize) -> (r: Option<u32>)
    requires
        from <= end <= params@.len(),
    ensures
        match r {
            Some(n) => number_in(params@.subrange(from as int, end as int)) == Some(n as int),
            None => number_in(params@.subrange(from as int, end as int)) is None,
        },
{
    let ghost s = params@.subrange(from as int, end as int);
    let mut start: usize = from;
    if from < end && params[from] == 0x2b {
        start = from + 1;
    }
    let ghost body = params@.subrange(start as int, end as int);
    assert(s.len() > 0 && s[0] == 0x2b ==> s.drop_first() =~= body);
    assert(!(s.len() > 0 && s[0] == 0x2b) ==> s =~= body);
    if start == end {
        return None;
    }
    let mut i: usize = start;
    while i < end
        invariant
            start <= i <= end <= params@.len(),
            body == params@.subrange(start as int, end as int),
            forall|j: int| 0 <= j < i - start ==> is_digit_byte(#[trigger] body[j]),
        decreases end - i,
    {
        assert(body[i - start] == params@[i as int]);
        if !(0x30 <= params[i] && params[i] <= 0x39) {
            assert(!all_digit_bytes(body));
            return None;
        }
        i = i + 1;
    }
    let mut n: u32 = 0;
    i = start;
    assert(body.take(0) =~= Seq::empty());
    while i < end
        invariant
            start <= i <= end <= params@.len(),
            body == params@.subrange(start as int, end as int),
            all_digit_bytes(body),
            n == bytes_value(body.take(i - start)),
            n <= 0xffff,
        decreases end - i,
    {
        assert(body[i - start] == params@[i as int]);
        assert(body.take(i + 1 - start).drop_last() =~= body.take(i - start));
        n = n * 10 + (params[i] - 0x30) as u32;
        proof {
            lemma_bytes_value_grows(body, i + 1 - start);
        }
        if n > 0xffff {
            return None;
        }
        i = i + 1;
    }
    assert(body.take(i - start) =~= body);
    Some(n)
}

/// Whether the parameters of a private mode name one in which a program hears of the mouse.
pub fn private_modes_list_mouse(params: &[u8], from: usize, to: usize) -> (r: bool)
    requires
        from <= to <= params@.len(),
    ensures
        r == lists_mouse_mode(params@.subrange(from as int, to as int), 0),
{
    let ghost s = params@.subrange(from as int, to as int);
    let mut start: usize = from;
    loop
        invariant
            from <= start <= to <= params@.len(),
            s == params@.subrange(from as int, to as int),
            lists_mouse_mode(s, 0) == lists_mouse_mode(s, start - from),
        decreases to - start,
    {
        let mut end: usize = start;
        while end < to && params[end] != 0x3b
            invariant
                from <= start <= end <= to <= params@.len(),
                s == params@.subrange(from as int, to as int),
                part_end(s, start - from) == part_end(s, end - from),
            decreases to - end,
        {
            assert(s[end - from] == params@[end as int]);
            end = end + 1;
        }
        proof {
            if end < to {
                assert(s[end - from] == params@[end as int]);
            }
            assert(part_end(s, start - from) == end - from);
            assert(s.subrange(start - from, end - from) =~= params@.subrange(
                start as int,
                end as int,
            ));
        }
        match read_number(params, start, end) {
            Some(n) => if n == 1000 || n == 1002 || n == 1003 || n == 1005 || n == 1006 || n
                == 1015 {
                return true;
            },
            None => {},
        }
        if end == to {
            assert(!lists_mouse_mode(s, end - from + 1));
            return false;
        }
        start = end + 1;
    }
}

/// An escape sequence for private modes starts at `i`.
pub open spec fn opens_at(data: Seq<u8>, i: int) -> bool {
    0 <= i && i + 3 <= data.len() && data[i] == 0x1b && data[i + 1] == 0x5b && data[i + 2] == 0x3f
}

/// The first place from `from` on at which one starts.
pub open spec fn next_open(data: Seq<u8>, from: int) -> Option<int>
    decreases data.len() - from,
{
    if from + 3 > data.len() {
        None
    } else if opens_at(data, from) {
        Some(from)
    } else {
        next_open(data, from + 1)
    }
}

/// The end of the parameters that start at `from`.
pub open spec fn params_end(data: Seq<u8>, from: int) -> int
    decreases data.len() - from,
{
    if 0 <= from < data.len() && (is_digit_byte(data[from]) || data[from] == 0x3b) {
        params_end(data, from + 1)
    } else {
        from
    }
}

pub proof fn lemma_params_end(data: Seq<u8>, from: int)
    requires
        0 <= from <= data.len(),
    ensures
        from <= params_end(data, from) <= data.len(),
    decreases data.len() - from,
{
    if from < data.len() && (is_digit_byte(data[from]) || data[from] == 0x3b) {
        lemma_params_end(data, from + 1);
    }
}

pub proof fn lemma_next_open(data: Seq<u8>, from: int)
    requires
        0 <= from,
    ensures
        next_open(data, from) matches Some(i) ==> from <= i && opens_at(data, i),
    decreases data.len() - from,
{
    if from + 3 <= data.len() && !opens_at(data, from) {
        lemma_next_open(data, from + 1);
    }
}

/// Whether the program wants the mouse after it wrote `data` from `from` on, where it did
/// (`on`) or did not before: each sequence that sets or resets a mouse mode decides.
pub open spec fn tracking_after(data: Seq<u8>, from: int, on: bool) -> bool
    decreases data.len() - from,
{
    match next_open(data, from) {
        None => on,
        Some(i) => {
            let end = params_end(data, i + 3);
            let now = if end < data.len() && (data[end] == 0x68 || data[end] == 0x6c)
                && lists_mouse_mode(data.subrange(i + 3, end), 0) {
                data[end] == 0x68
            } else {
                on
            };
            if from <= i && i + 3 <= end && end < data.len() {
                tracking_after(data, end + 1, now)
            } else {
                now
            }
        },
    }
}

/// Whether the program wants the mouse after it wrote `data`.
pub fn mouse_tracking_after(data: &[u8], on: bool) -> (r: bool)
    ensures
        r == tracking_after(data@, 0, on),
{
    let n: usize = data.len();
    let mut on_now = on;
    let mut index: usize = 0;
    while index < n && n - index >= 3
        invariant
            n == data@.len(),
            index <= n,
            tracking_after(data@, index as int, on_now) == tracking_after(data@, 0, on),
        decreases n - index,
    {
        proof {
            lemma_next_open(data@, index as int);
        }
        if data[index] == 0x1b && data[index + 1] == 0x5b && data[index + 2] == 0x3f {
            let start: usize = index + 3;
            let mut end: usize = start;
            while end < n && ((0x30 <= data[end] && data[end] <= 0x39) || data[end] == 0x3b)
                invariant
                    n == data@.len(),
                    start <= end <= n,
                    params_end(data@, start as int) == params_end(data@, end as int),
                decreases n - end,
            {
                end = end + 1;
            }
            assert(params_end(data@, start as int) == end);
            if end < n && (data[end] == 0x68 || data[end] == 0x6c) && private_modes_list_mouse(
                data,
                start,
                end,
            ) {
                on_now = data[end] == 0x68;
            }
            if end < n {
                index = end + 1;
            } else {
                return on_now;
            }
        } else {
            assert(next_open(data@, index as int) == next_open(data@, index + 1));
            index = index + 1;
        }
    }
    assert(next_open(data@, index as int) is None);
    on_now
}

} // verus!
