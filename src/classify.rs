use vstd::prelude::*;

verus! {

/// A byte is a control character when it is below 0x20 or is 0x7F (DEL).
pub open spec fn is_control_spec(b: u8) -> bool {
    b < 0x20 || b == 0x7F
}

/// What the loop reports about one byte.
#[derive(Clone, Copy, Debug, PartialEq, Eq, Structural)]
pub enum Diagnostic {
    /// A control character: only its numeric value is shown.
    Code(u8),
    /// A printable character: its numeric value and the character itself.
    CodeAndChar(u8, char),
}

impl Diagnostic {
    /// The byte that the diagnostic is about.
    pub open spec fn byte(self) -> u8 {
        match self {
            Diagnostic::Code(b) => b,
            Diagnostic::CodeAndChar(b, _) => b,
        }
    }
}

/// The diagnostic that a byte gets.
pub open spec fn classify_spec(b: u8) -> Diagnostic {
    if is_control_spec(b) {
        Diagnostic::Code(b)
    } else {
        Diagnostic::CodeAndChar(b, b as char)
    }
}

/// The decimal digit character for a value below ten.
pub open spec fn digit_char(d: nat) -> char {
    ((d + 0x30) as u32) as char
}

/// The decimal notation of a natural number, without leading zeros.
pub open spec fn decimal(n: nat) -> Seq<char>
    decreases n,
{
    if n < 10 {
        seq![digit_char(n)]
    } else {
        decimal(n / 10).push(digit_char(n % 10))
    }
}

/// The text line that reports a diagnostic, ending in a carriage return and a newline.
pub open spec fn line_spec(d: Diagnostic) -> Seq<char> {
    match d {
        Diagnostic::Code(b) => decimal(b as nat) + seq![' ', '\r', '\n'],
        Diagnostic::CodeAndChar(b, c) => decimal(b as nat) + seq![' ', '(', c, ')', '\r', '\n'],
    }
}

/// Whether a byte stands for a control character.
pub fn is_control_byte(b: u8) -> (r: bool)
    ensures
        r == is_control_spec(b),
{
    b < 0x20 || b == 0x7F
}

/// Classifies a byte as a control character or a printable one.
pub fn classify(b: u8) -> (r: Diagnostic)
    ensures
        r == classify_spec(b),
{
    if is_control_byte(b) {
        Diagnostic::Code(b)
    } else {
        Diagnostic::CodeAndChar(b, b as char)
    }
}

fn digit(d: u8) -> (r: char)
    requires
        d < 10,
    ensures
        r == digit_char(d as nat),
{
    (d + 0x30) as char
}

/// Appends the decimal notation of a byte to `out`.
pub fn push_decimal(out: &mut Vec<char>, n: u8)
    ensures
        final(out)@ == old(out)@ + decimal(n as nat),
{
    let ghost start = out@;
    if n >= 100 {
        out.push(digit(n / 100));
        out.push(digit((n / 10) % 10));
        out.push(digit(n % 10));
        let ghost hi = (n / 10) as nat;
        assert(hi / 10 == (n / 100) as nat && hi % 10 == ((n / 10) % 10) as nat);
        assert(decimal(hi / 10) == seq![digit_char((n / 100) as nat)]);
        assert(decimal(hi) == decimal(hi / 10).push(digit_char(hi % 10)));
        assert(decimal(n as nat) == decimal(hi).push(digit_char((n % 10) as nat)));
    } else if n >= 10 {
        out.push(digit(n / 10));
        out.push(digit(n % 10));
        assert(decimal((n / 10) as nat) == seq![digit_char((n / 10) as nat)]);
        assert(decimal(n as nat) == decimal((n / 10) as nat).push(digit_char((n % 10) as nat)));
    } else {
        out.push(digit(n));
    }
    assert(out@ =~= start + decimal(n as nat));
}

/// The text line that reports a diagnostic.
pub fn diagnostic_line(d: Diagnostic) -> (r: Vec<char>)
    ensures
        r@ == line_spec(d),
{
    let mut out: Vec<char> = Vec::new();
    match d {
        Diagnostic::Code(b) => {
            push_decimal(&mut out, b);
            out.push(' ');
        },
        Diagnostic::CodeAndChar(b, c) => {
            push_decimal(&mut out, b);
            out.push(' ');
            out.push('(');
            out.push(c);
            out.push(')');
        },
    }
    out.push('\r');
    out.push('\n');
    assert(out@ =~= line_spec(d));
    out
}

} // verus!
