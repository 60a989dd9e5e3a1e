use vstd::prelude::*;
use vstd::utf8::*;
use crate::text::{decode_strict, push_char, push_str};

verus! {

/// How a line of a patch relates the two trees.
#[derive(Clone, Copy, Debug, PartialEq, Eq, Structural)]
pub enum DiffLineKind {
    /// A line only the newer tree has.
    Addition,
    /// A line only the older tree has.
    Deletion,
    /// Any other line: context, headers, end-of-file markers.
    Other,
}

/// The character that marks a line of each kind.
pub open spec fn line_marker(kind: DiffLineKind) -> char {
    match kind {
        DiffLineKind::Addition => '+',
        DiffLineKind::Deletion => '-',
        DiffLineKind::Other => ' ',
    }
}

/// How a patch line reads: its marker, then its content where the content is
/// valid UTF-8 (nothing after the marker otherwise).
pub open spec fn rendered_line(kind: DiffLineKind, content: Seq<u8>) -> Seq<char> {
    seq![line_marker(kind)] + if valid_utf8(content) {
        decode_utf8(content)
    } else {
        Seq::empty()
    }
}

/// The marker of a line of this kind.
pub fn marker(kind: DiffLineKind) -> (c: char)
    ensures
        c == line_marker(kind),
        kind == DiffLineKind::Addition ==> c == '+',
        kind == DiffLineKind::Deletion ==> c == '-',
        kind == DiffLineKind::Other ==> c == ' ',
{
    match kind {
        DiffLineKind::Addition => '+',
        DiffLineKind::Deletion => '-',
        DiffLineKind::Other => ' ',
    }
}

/// Appends one line of a patch to the text shown for a diff.
pub fn append_diff_line(out: &mut String, kind: DiffLineKind, content: &[u8])
    ensures
        final(out)@ == old(out)@ + rendered_line(kind, content@),
        final(out)@.subrange(0, old(out)@.len() as int) == old(out)@,
        kind == DiffLineKind::Addition ==> final(out)@[old(out)@.len() as int] == '+',
        kind == DiffLineKind::Deletion ==> final(out)@[old(out)@.len() as int] == '-',
        kind == DiffLineKind::Other ==> final(out)@[old(out)@.len() as int] == ' ',
        valid_utf8(content@) ==> final(out)@.subrange(old(out)@.len() + 1int, final(out)@.len() as int)
            == decode_utf8(content@),
        !valid_utf8(content@) ==> final(out)@.len() == old(out)@.len() + 1,
{
    push_char(out, marker(kind));
    match decode_strict(content) {
        Some(t) => {
            push_str(out, t);
        },
        None => {},
    }
    assert(out@ =~= old(out)@ + rendered_line(kind, content@));
    proof {
        lemma_rendered_line(kind, content@);
        assert(out@.subrange(0, old(out)@.len() as int) =~= old(out)@);
        assert(out@.subrange(old(out)@.len() + 1int, out@.len() as int) =~= rendered_line(
            kind,
            content@,
        ).drop_first());
    }
}

/// A rendered line starts with the marker of its kind alone, whatever its
/// content (`+` for an addition, `-` for a deletion, a space otherwise), and
/// goes on with the content decoded, or with nothing where the content is not
/// UTF-8.
pub proof fn lemma_rendered_line(kind: DiffLineKind, content: Seq<u8>)
    ensures
        rendered_line(kind, content).len() >= 1,
        kind == DiffLineKind::Addition ==> rendered_line(kind, content)[0] == '+',
        kind == DiffLineKind::Deletion ==> rendered_line(kind, content)[0] == '-',
        kind == DiffLineKind::Other ==> rendered_line(kind, content)[0] == ' ',
        valid_utf8(content) ==> rendered_line(kind, content).drop_first() == decode_utf8(content),
        !valid_utf8(content) ==> rendered_line(kind, content).len() == 1,
{
    let r = rendered_line(kind, content);
    assert(r[0] == line_marker(kind));
    if valid_utf8(content) {
        assert(r.drop_first() =~= decode_utf8(content));
    }
}

/// Two lines of the same content differ only in their marker: the kind
/// decides the first character and nothing else.
pub proof fn lemma_marker_only_differs(a: DiffLineKind, b: DiffLineKind, content: Seq<u8>)
    ensures
        rendered_line(a, content).len() == rendered_line(b, content).len(),
        rendered_line(a, content).drop_first() == rendered_line(b, content).drop_first(),
        rendered_line(a, content)[0] == rendered_line(b, content)[0] <==> a == b,
{
    let ra = rendered_line(a, content);
    let rb = rendered_line(b, content);
    assert(ra.drop_first() =~= rb.drop_first());
    assert(ra[0] == line_marker(a));
    assert(rb[0] == line_marker(b));
}

} // verus!
