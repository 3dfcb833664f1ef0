//! Parsing of typed input lines.
//!
//! A line starting with `/` is a command; any other line is chat text and is
//! broadcast as typed. Commands are read from the line with trailing
//! whitespace removed: `/nick <name>` renames, `/quit` leaves the room,
//! `/min` enters or accepts the matchmaking queue, and every other `/` line
//! is rejected locally with an unknown-command notice and never broadcast.

use vstd::prelude::*;
use vstd::slice::{slice_subrange, slice_to_vec};
use crate::text::{trim_trailing, trim_trailing_spec, bytes_eq};

verus! {

/// The length of the first space-separated token of a byte string.
pub open spec fn token_len(s: Seq<u8>) -> int
    decreases s.len(),
{
    if s.len() == 0 {
        0
    } else if s[0] == 32u8 {
        0
    } else {
        1 + token_len(s.drop_first())
    }
}

proof fn lemma_token_len_at(s: Seq<u8>, i: int)
    requires
        0 <= i <= s.len(),
        forall|j: int| 0 <= j < i ==> s[j] != 32u8,
        i == s.len() || s[i] == 32u8,
    ensures
        token_len(s) == i,
    decreases s.len(),
{
    if i > 0 {
        lemma_token_len_at(s.drop_first(), i - 1);
    }
}

/// What follows the first token: the bytes after the first space, or nothing
/// when there is no space.
pub open spec fn rest_after_token(s: Seq<u8>) -> Seq<u8> {
    if token_len(s) < s.len() {
        s.subrange(token_len(s) + 1, s.len() as int)
    } else {
        Seq::empty()
    }
}

/// The ASCII bytes of `/nick`.
pub open spec fn nick_cmd() -> Seq<u8> {
    seq![47u8, 110u8, 105u8, 99u8, 107u8]
}

/// The ASCII bytes of `/quit`.
pub open spec fn quit_cmd() -> Seq<u8> {
    seq![47u8, 113u8, 117u8, 105u8, 116u8]
}

/// The ASCII bytes of `/min`.
pub open spec fn min_cmd() -> Seq<u8> {
    seq![47u8, 109u8, 105u8, 110u8]
}

/// What a typed line asks for.
pub enum LineAction {
    /// Plain text: broadcast it as typed.
    Chat,
    /// `/nick`: announce this display name.
    Nick { name: Vec<u8> },
    /// `/quit`: leave the room.
    Quit,
    /// `/min`: enter or accept the matchmaking queue.
    Min,
    /// Any other `/` line: report locally, broadcast nothing.
    Unknown,
}

/// The mathematical value of a parsed line.
pub enum LineActionView {
    Chat,
    Nick { name: Seq<u8> },
    Quit,
    Min,
    Unknown,
}

impl View for LineAction {
    type V = LineActionView;

    open spec fn view(&self) -> LineActionView {
        match self {
            LineAction::Chat => LineActionView::Chat,
            LineAction::Nick { name } => LineActionView::Nick { name: name@ },
            LineAction::Quit => LineActionView::Quit,
            LineAction::Min => LineActionView::Min,
            LineAction::Unknown => LineActionView::Unknown,
        }
    }
}

/// The parse of a line. 47 is ASCII `/`; a line is a command exactly when
/// its very first byte is `/`.
pub open spec fn parse_line_spec(line: Seq<u8>) -> LineActionView {
    if line.len() == 0 || line[0] != 47u8 {
        LineActionView::Chat
    } else {
        let t = trim_trailing_spec(line);
        let tok = t.take(token_len(t));
        if tok == nick_cmd() {
            LineActionView::Nick { name: rest_after_token(t) }
        } else if tok == quit_cmd() {
            LineActionView::Quit
        } else if tok == min_cmd() {
            LineActionView::Min
        } else {
            LineActionView::Unknown
        }
    }
}

fn token_end(t: &[u8]) -> (r: usize)
    ensures
        r as int == token_len(t@),
        r <= t@.len(),
{
    let n: usize = t.len();
    let mut i: usize = 0;
    while i < n
        invariant
            n == t@.len(),
            i <= n,
            forall|j: int| 0 <= j < i ==> t@[j] != 32u8,
        decreases n - i,
    {
        if t[i] == 32 {
            proof {
                lemma_token_len_at(t@, i as int);
            }
            return i;
        }
        i += 1;
    }
    proof {
        lemma_token_len_at(t@, i as int);
    }
    i
}

/// Parse one typed line.
pub fn parse_line(line: &[u8]) -> (r: LineAction)
    ensures
        r@ == parse_line_spec(line@),
{
    if line.len() == 0 {
        return LineAction::Chat;
    }
    if line[0] != 47 {
        return LineAction::Chat;
    }
    let t = trim_trailing(line);
    let end: usize = token_end(t.as_slice());
    let tok = slice_subrange(t.as_slice(), 0, end);
    // the ASCII bytes of "/nick", "/quit" and "/min"
    let nick: [u8; 5] = [47, 110, 105, 99, 107];
    let quit: [u8; 5] = [47, 113, 117, 105, 116];
    let min_c: [u8; 4] = [47, 109, 105, 110];
    proof {
        assert(nick@ =~= nick_cmd());
        assert(quit@ =~= quit_cmd());
        assert(min_c@ =~= min_cmd());
    }
    if bytes_eq(tok, nick.as_slice()) {
        let name = if end < t.len() {
            slice_to_vec(slice_subrange(t.as_slice(), end + 1, t.len()))
        } else {
            Vec::new()
        };
        proof {
            assert(name@ =~= rest_after_token(t@));
        }
        LineAction::Nick { name }
    } else if bytes_eq(tok, quit.as_slice()) {
        LineAction::Quit
    } else if bytes_eq(tok, min_c.as_slice()) {
        LineAction::Min
    } else {
        LineAction::Unknown
    }
}

} // verus!
