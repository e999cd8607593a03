//! The display name: `<host>/<protocol>:<display>.<screen>`, or `unix:<path>`.

use vstd::prelude::*;

use crate::display::error::Error;

verus! {

/// The transport of a connection.
#[derive(Debug, Clone, Copy, PartialEq, Eq, Structural)]
pub enum Protocol {
    TcpSocket,
    UnixSocket,
}

/// A parsed display name.
#[derive(Debug, Clone, PartialEq, Eq)]
pub struct DisplayInfo {
    pub host: String,
    pub protocol: Protocol,
    pub display: u16,
    pub screen: u16,
}

impl DisplayInfo {
    pub fn new(host: String, protocol: Protocol, display: u16, screen: u16) -> (r: DisplayInfo)
        ensures
            r.host@ == host@,
            r.protocol == protocol,
            r.display == display,
            r.screen == screen,
    {
        DisplayInfo { host, protocol, display, screen }
    }
}

/// The first position at or after `from` whose character is `a` or `b`, or the length.
pub open spec fn find(s: Seq<char>, from: int, a: char, b: char) -> int
    decreases s.len() - from,
{
    if from >= s.len() {
        s.len() as int
    } else if s[from] == a || s[from] == b {
        from
    } else {
        find(s, from + 1, a, b)
    }
}

pub open spec fn is_digit(c: char) -> bool {
    '0' <= c <= '9'
}

pub open spec fn digit_value(c: char) -> int {
    c as int - '0' as int
}

/// The number that a string of decimal digits spells.
pub open spec fn digits_value(s: Seq<char>) -> int
    decreases s.len(),
{
    if s.len() == 0 {
        0
    } else {
        10 * digits_value(s.drop_last()) + digit_value(s.last())
    }
}

/// `s` without a leading `+`.
pub open spec fn unsigned(s: Seq<char>) -> Seq<char> {
    if s.len() > 0 && s[0] == '+' {
        s.drop_first()
    } else {
        s
    }
}

pub open spec fn all_digits(t: Seq<char>) -> bool {
    forall|i: int| 0 <= i < t.len() ==> is_digit(#[trigger] t[i])
}

/// A 16-bit decimal number: an optional `+`, then one or more digits, at most 65535.
pub open spec fn decimal(s: Seq<char>) -> Option<u16> {
    let t = unsigned(s);
    if t.len() > 0 && all_digits(t) && digits_value(t) <= 65535 {
        Some(digits_value(t) as u16)
    } else {
        None
    }
}

/// Whether `c` is the lower-case letter `w` in either case.
pub open spec fn same_letter(c: char, w: char) -> bool {
    c == w || c as u32 + 32 == w as u32
}

/// `s` without the colons it ends with.
pub open spec fn trim_colons(s: Seq<char>) -> Seq<char>
    decreases s.len(),
{
    if s.len() > 0 && s.last() == ':' {
        trim_colons(s.drop_last())
    } else {
        s
    }
}

/// Whether `s` spells `word` (lower case) in any case of its letters.
pub open spec fn spells(s: Seq<char>, word: Seq<char>) -> bool {
    s.len() == word.len() && forall|i: int| 0 <= i < s.len() ==> same_letter(#[trigger] s[i], word[i])
}

/// The transport a protocol name names, if any.
pub open spec fn protocol_of(s: Seq<char>) -> Option<Protocol> {
    let t = trim_colons(s);
    if spells(t, seq!['u', 'n', 'i', 'x']) {
        Some(Protocol::UnixSocket)
    } else if spells(t, seq!['t', 'c', 'p']) {
        Some(Protocol::TcpSocket)
    } else {
        None
    }
}

/// What a display name parses to: host, protocol, display and screen, or the name's fault.
pub enum ParseOutcome {
    Parsed(Seq<char>, Protocol, u16, u16),
    BadDisplay,
    BadProtocol(Seq<char>),
}

/// The display and screen numbers from position `from` on.
pub open spec fn numbers_from(s: Seq<char>, from: int, host: Seq<char>, protocol: Protocol) -> ParseOutcome {
    let d = find(s, from, '.', '.');
    match decimal(s.subrange(from, d)) {
        None => ParseOutcome::BadDisplay,
        Some(display) => if d >= s.len() {
            ParseOutcome::Parsed(host, protocol, display, 0)
        } else {
            let e = find(s, d + 1, '.', '.');
            match decimal(s.subrange(d + 1, e)) {
                None => ParseOutcome::BadDisplay,
                Some(screen) => ParseOutcome::Parsed(host, protocol, display, screen),
            }
        },
    }
}

/// What the display name `s` parses to.
pub open spec fn parse_display(s: Seq<char>) -> ParseOutcome {
    let h = find(s, 0, ':', '/');
    let host = s.subrange(0, h);
    if h >= s.len() {
        ParseOutcome::BadDisplay
    } else if host == seq!['u', 'n', 'i', 'x'] {
        ParseOutcome::Parsed(s.subrange(h + 1, s.len() as int), Protocol::UnixSocket, 0, 0)
    } else if s[h] == ':' {
        numbers_from(s, h + 1, host, Protocol::UnixSocket)
    } else {
        let p = find(s, h + 1, ':', ':');
        let name = s.subrange(h + 1, p);
        match protocol_of(name) {
            None => ParseOutcome::BadProtocol(name),
            Some(protocol) => if p >= s.len() {
                ParseOutcome::BadDisplay
            } else {
                numbers_from(s, p + 1, host, protocol)
            },
        }
    }
}

/// Whether `r` is what `outcome` says.
pub open spec fn parsed_as(outcome: ParseOutcome, r: Result<DisplayInfo, Error>) -> bool {
    match outcome {
        ParseOutcome::Parsed(host, protocol, display, screen) => match r {
            Ok(info) => info.host@ == host && info.protocol == protocol && info.display == display
                && info.screen == screen,
            Err(_) => false,
        },
        ParseOutcome::BadDisplay => r == Err::<DisplayInfo, Error>(Error::InvalidDisplay),
        ParseOutcome::BadProtocol(name) => match r {
            Err(Error::InvalidProtocol { protocol }) => protocol@ == name,
            _ => false,
        },
    }
}

pub proof fn lemma_digits_grow(s: Seq<char>, i: int)
    requires
        0 <= i <= s.len(),
        forall|k: int| 0 <= k < s.len() ==> is_digit(#[trigger] s[k]),
    ensures
        digits_value(s.subrange(0, i)) <= digits_value(s),
    decreases s.len() - i,
{
    if i < s.len() {
        lemma_digits_grow(s, i + 1);
        assert(s.subrange(0, i + 1).drop_last() =~= s.subrange(0, i));
        lemma_digits_nonneg(s.subrange(0, i));
    } else {
        assert(s.subrange(0, i) =~= s);
    }
}

pub proof fn lemma_digits_nonneg(s: Seq<char>)
    requires
        forall|k: int| 0 <= k < s.len() ==> is_digit(#[trigger] s[k]),
    ensures
        digits_value(s) >= 0,
    decreases s.len(),
{
    if s.len() > 0 {
        lemma_digits_nonneg(s.drop_last());
    }
}

/// Reads the decimal number in `chars[from..to]`.
fn parse_u16(chars: &str, from: usize, to: usize) -> (r: Option<u16>)
    requires
        from <= to <= chars@.len(),
    ensures
        r == decimal(chars@.subrange(from as int, to as int)),
{
    let ghost s = chars@.subrange(from as int, to as int);
    let mut start = from;
    if from < to && chars.get_char(from) == '+' {
        start = from + 1;
    }
    let ghost t = chars@.subrange(start as int, to as int);
    assert(t =~= unsigned(s));
    if start == to {
        return None;
    }
    let mut value: u32 = 0;
    let mut i = start;
    while i < to
        invariant
            start <= i <= to <= chars@.len(),
            t == chars@.subrange(start as int, to as int),
            s == chars@.subrange(from as int, to as int),
            t == unsigned(s),
            forall|k: int| start <= k < i ==> is_digit(#[trigger] chars@[k]),
            value == digits_value(chars@.subrange(start as int, i as int)),
            value <= 65535,
        decreases to - i,
    {
        let c = chars.get_char(i);
        if !('0' <= c && c <= '9') {
            assert(!is_digit(t[i - start]));
            assert(decimal(s) is None);
            return None;
        }
        let ghost prefix = chars@.subrange(start as int, i + 1);
        assert(prefix.drop_last() =~= chars@.subrange(start as int, i as int));
        value = value * 10 + (c as u32 - '0' as u32);
        if value > 65535 {
            proof {
                if all_digits(t) {
                    assert(t.subrange(0, i + 1 - start) =~= prefix);
                    lemma_digits_grow(t, i + 1 - start);
                }
                assert(decimal(s) is None);
            }
            return None;
        }
        i = i + 1;
    }
    assert(chars@.subrange(start as int, to as int) =~= t);
    Some(value as u16)
}

impl Protocol {
    /// The transport that a protocol name names, in any case, with trailing colons ignored.
    pub fn from(value: String) -> (r: Result<Protocol, Error>)
        ensures
            match protocol_of(value@) {
                Some(p) => r == Ok::<Protocol, Error>(p),
                None => match r {
                    Err(Error::InvalidProtocol { protocol }) => protocol@ == value@,
                    _ => false,
                },
            },
    {
        let s = value.as_str();
        let mut n = s.unicode_len();
        assert(s@.subrange(0, n as int) =~= s@);
        while n > 0 && s.get_char(n - 1) == ':'
            invariant
                n <= s@.len(),
                trim_colons(s@) == trim_colons(s@.subrange(0, n as int)),
            decreases n,
        {
            assert(s@.subrange(0, n as int).drop_last() =~= s@.subrange(0, n - 1));
            n = n - 1;
        }
        proof {
            if n > 0 {
                assert(s@.subrange(0, n as int).last() == s@[n - 1]);
            }
        }
        assert(trim_colons(s@.subrange(0, n as int)) == s@.subrange(0, n as int));
        let ghost t = s@.subrange(0, n as int);
        proof {
            reveal_strlit("unix");
            reveal_strlit("tcp");
        }
        if spells_word(s, n, "unix") {
            Ok(Protocol::UnixSocket)
        } else if spells_word(s, n, "tcp") {
            Ok(Protocol::TcpSocket)
        } else {
            Err(Error::InvalidProtocol { protocol: value })
        }
    }
}

/// Whether the first `n` characters of `s` spell `word` in any case.
fn spells_word(s: &str, n: usize, word: &str) -> (r: bool)
    requires
        n <= s@.len(),
    ensures
        r == spells(s@.subrange(0, n as int), word@),
{
    let len = word.unicode_len();
    if len != n {
        return false;
    }
    let mut i: usize = 0;
    while i < n
        invariant
            n == len,
            len == word@.len(),
            n <= s@.len(),
            i <= n,
            forall|k: int| 0 <= k < i ==> same_letter(s@[k], word@[k]),
        decreases n - i,
    {
        let c = s.get_char(i);
        let w = word.get_char(i);
        if !(c == w || (c as u32) + 32 == w as u32) {
            assert(!same_letter(s@.subrange(0, n as int)[i as int], word@[i as int]));
            return false;
        }
        i = i + 1;
    }
    true
}

/// Which part of a display name the parser reads next.
#[derive(Debug, Clone, Copy, PartialEq, Eq, Structural)]
pub enum State {
    Host,
    Protocol,
    Display,
    Screen,
    Unix,
    Finished,
}

/// A cursor over the characters of a display name.
pub struct Iter<'a> {
    pub chars: &'a str,
    pub len: usize,
    pub pos: usize,
}

impl<'a> Iter<'a> {
    pub fn new(chars: &'a str) -> (r: Iter<'a>)
        ensures
            r.chars == chars,
            r.len == chars@.len(),
            r.pos == 0,
    {
        Iter { chars, len: chars.unicode_len(), pos: 0 }
    }

    /// Reads up to the next `a` or `b`, or to the end, without taking that character.
    pub fn take_until(&mut self, a: char, b: char) -> (r: String)
        requires
            old(self).len == old(self).chars@.len(),
            old(self).pos <= old(self).len,
        ensures
            final(self).chars == old(self).chars,
            final(self).len == old(self).len,
            final(self).pos == find(old(self).chars@, old(self).pos as int, a, b),
            old(self).pos <= final(self).pos <= final(self).len,
            r@ == old(self).chars@.subrange(old(self).pos as int, final(self).pos as int),
    {
        let from = self.pos;
        while self.pos < self.len && !(self.chars.get_char(self.pos) == a || self.chars.get_char(
            self.pos,
        ) == b)
            invariant
                self.chars == old(self).chars,
                self.len == old(self).len,
                self.len == self.chars@.len(),
                from <= self.pos <= self.len,
                find(self.chars@, from as int, a, b) == find(self.chars@, self.pos as int, a, b),
            decreases self.len - self.pos,
        {
            self.pos = self.pos + 1;
        }
        String::from_str(self.chars.substring_char(from, self.pos))
    }

    /// Reads everything that is left.
    pub fn rest(&mut self) -> (r: String)
        requires
            old(self).len == old(self).chars@.len(),
            old(self).pos <= old(self).len,
        ensures
            final(self).chars == old(self).chars,
            final(self).len == old(self).len,
            final(self).pos == old(self).len,
            r@ == old(self).chars@.subrange(old(self).pos as int, old(self).len as int),
    {
        let from = self.pos;
        self.pos = self.len;
        String::from_str(self.chars.substring_char(from, self.len))
    }

    pub fn next_option(&mut self) -> (r: Option<char>)
        requires
            old(self).len == old(self).chars@.len(),
        ensures
            final(self).chars == old(self).chars,
            final(self).len == old(self).len,
            old(self).pos < old(self).len ==> r == Some(old(self).chars@[old(self).pos as int])
                && final(self).pos == old(self).pos + 1,
            old(self).pos >= old(self).len ==> r is None && final(self).pos == old(self).pos,
    {
        if self.pos < self.len {
            let c = self.chars.get_char(self.pos);
            self.pos = self.pos + 1;
            Some(c)
        } else {
            None
        }
    }

    /// The next character; the end of the name is an invalid display.
    pub fn next(&mut self) -> (r: Result<char, Error>)
        requires
            old(self).len == old(self).chars@.len(),
        ensures
            final(self).chars == old(self).chars,
            final(self).len == old(self).len,
            old(self).pos < old(self).len ==> r == Ok::<char, Error>(
                old(self).chars@[old(self).pos as int],
            ) && final(self).pos == old(self).pos + 1,
            old(self).pos >= old(self).len ==> r == Err::<char, Error>(Error::InvalidDisplay)
                && final(self).pos == old(self).pos,
    {
        match self.next_option() {
            Some(c) => Ok(c),
            None => Err(Error::InvalidDisplay),
        }
    }

    /// Takes the next character, which must be `expect`.
    pub fn expect(&mut self, expect: char) -> (r: Result<(), Error>)
        requires
            old(self).len == old(self).chars@.len(),
        ensures
            final(self).chars == old(self).chars,
            final(self).len == old(self).len,
            r is Ok <==> old(self).pos < old(self).len && old(self).chars@[old(self).pos as int]
                == expect,
            r is Err ==> r == Err::<(), Error>(Error::InvalidDisplay),
    {
        let c = self.next()?;
        if c != expect {
            Err(Error::InvalidDisplay)
        } else {
            Ok(())
        }
    }
}

/// Reads a display name with a state machine over its characters.
pub struct Parser<'a> {
    pub iter: Iter<'a>,
    pub state: State,
}

impl<'a> Parser<'a> {
    pub fn new(display: &'a str) -> (r: Parser<'a>)
        ensures
            r.iter.chars == display,
            r.iter.len == display@.len(),
            r.iter.pos == 0,
            r.state == State::Host,
    {
        Parser { iter: Iter::new(display), state: State::Host }
    }

    /// Reads the display and screen numbers.
    fn numbers(&mut self, host: String, protocol: Protocol) -> (r: Result<DisplayInfo, Error>)
        requires
            old(self).iter.len == old(self).iter.chars@.len(),
            old(self).iter.pos <= old(self).iter.len,
        ensures
            final(self).state == State::Finished,
            parsed_as(
                numbers_from(old(self).iter.chars@, old(self).iter.pos as int, host@, protocol),
                r,
            ),
    {
        self.state = State::Display;
        let from = self.iter.pos;
        let _ = self.iter.take_until('.', '.');
        let display = parse_u16(self.iter.chars, from, self.iter.pos);
        let display = match display {
            Some(d) => d,
            None => {
                self.state = State::Finished;
                return Err(Error::InvalidDisplay);
            },
        };
        match self.iter.next_option() {
            Some(_) => {
                self.state = State::Screen;
                let from = self.iter.pos;
                let _ = self.iter.take_until('.', '.');
                let screen = parse_u16(self.iter.chars, from, self.iter.pos);
                self.state = State::Finished;
                match screen {
                    Some(screen) => Ok(DisplayInfo::new(host, protocol, display, screen)),
                    None => Err(Error::InvalidDisplay),
                }
            },
            None => {
                self.state = State::Finished;
                Ok(DisplayInfo::new(host, protocol, display, 0))
            },
        }
    }

    /// Parses the whole name: the host up to `:` or `/`, then either the path of `unix:`,
    /// or an optional protocol, the display number and an optional screen number.
    pub fn parse(&mut self) -> (r: Result<DisplayInfo, Error>)
        requires
            old(self).iter.len == old(self).iter.chars@.len(),
            old(self).iter.pos == 0,
        ensures
            parsed_as(parse_display(old(self).iter.chars@), r),
    {
        let ghost s = self.iter.chars@;
        self.state = State::Host;
        let host = self.iter.take_until(':', '/');
        let ghost h = self.iter.pos as int;
        let separator = match self.iter.next() {
            Ok(c) => c,
            Err(e) => {
                self.state = State::Finished;
                return Err(e);
            },
        };
        let unix = String::from_str("unix");
        proof {
            reveal_strlit("unix");
            assert(unix@ =~= seq!['u', 'n', 'i', 'x']);
        }
        if host == unix {
            assert(host@ == seq!['u', 'n', 'i', 'x']);
            self.state = State::Unix;
            let path = self.iter.rest();
            self.state = State::Finished;
            return Ok(DisplayInfo::new(path, Protocol::UnixSocket, 0, 0));
        }
        assert(host@ != seq!['u', 'n', 'i', 'x']);
        if separator == ':' {
            self.numbers(host, Protocol::UnixSocket)
        } else {
            self.state = State::Protocol;
            let name = self.iter.take_until(':', ':');
            let protocol = match Protocol::from(name) {
                Ok(p) => p,
                Err(e) => {
                    self.state = State::Finished;
                    return Err(e);
                },
            };
            if self.iter.next().is_err() {
                self.state = State::Finished;
                return Err(Error::InvalidDisplay);
            }
            self.numbers(host, protocol)
        }
    }
}

/// Parses a display name; without one there is nothing to parse.
pub fn parse(display: Option<&str>) -> (r: Result<DisplayInfo, Error>)
    ensures
        display is None ==> r == Err::<DisplayInfo, Error>(Error::InvalidDisplay),
        display is Some ==> parsed_as(parse_display(display->0@), r),
{
    match display {
        Some(name) => Parser::new(name).parse(),
        None => Err(Error::InvalidDisplay),
    }
}

} // verus!
