use vstd::prelude::*;

verus! {

/// A line break of the jar manifest format.
pub open spec fn crlf() -> Seq<u8> {
    seq![13u8, 10u8]
}

/// The longest line the manifest format allows, in bytes, line break aside.
pub const MAX_LINE: usize = 72;

/// The continuation lines of a header, each a space and up to 71 bytes.
pub open spec fn wrap_rest(t: Seq<u8>) -> Seq<u8>
    decreases t.len(),
{
    if t.len() == 0 {
        Seq::empty()
    } else {
        let k = if t.len() < 71 { t.len() as int } else { 71 };
        seq![32u8] + t.take(k) + crlf() + wrap_rest(t.skip(k))
    }
}

/// A header line `s` wrapped to the manifest format: up to 72 bytes on the
/// first line, then continuation lines, each line ended by CRLF.
pub open spec fn wrap_header(s: Seq<u8>) -> Seq<u8> {
    let k = if s.len() < 72 { s.len() as int } else { 72 };
    s.take(k) + crlf() + wrap_rest(s.skip(k))
}

/// The continuation lines of `t`, without their line breaks.
pub open spec fn rest_lines(t: Seq<u8>) -> Seq<Seq<u8>>
    decreases t.len(),
{
    if t.len() == 0 {
        Seq::empty()
    } else {
        let k = if t.len() < 71 { t.len() as int } else { 71 };
        seq![seq![32u8] + t.take(k)] + rest_lines(t.skip(k))
    }
}

/// The lines of the wrapped header `s`, without their line breaks.
pub open spec fn header_lines(s: Seq<u8>) -> Seq<Seq<u8>> {
    let k = if s.len() < 72 { s.len() as int } else { 72 };
    seq![s.take(k)] + rest_lines(s.skip(k))
}

/// Lines, each followed by CRLF.
pub open spec fn join_lines(ls: Seq<Seq<u8>>) -> Seq<u8>
    decreases ls.len(),
{
    if ls.len() == 0 {
        Seq::empty()
    } else {
        ls[0] + crlf() + join_lines(ls.drop_first())
    }
}

/// Continuation lines with their leading space stripped, concatenated.
pub open spec fn unwrap_rest(ls: Seq<Seq<u8>>) -> Seq<u8>
    decreases ls.len(),
{
    if ls.len() == 0 {
        Seq::empty()
    } else {
        ls[0].drop_first() + unwrap_rest(ls.drop_first())
    }
}

proof fn lemma_rest_lines(t: Seq<u8>)
    ensures
        wrap_rest(t) == join_lines(rest_lines(t)),
        forall|i: int|
            0 <= i < rest_lines(t).len() ==> #[trigger] rest_lines(t)[i].len() <= 72
                && rest_lines(t)[i].len() >= 1 && rest_lines(t)[i][0] == 32u8,
        unwrap_rest(rest_lines(t)) == t,
    decreases t.len(),
{
    if t.len() > 0 {
        let k = if t.len() < 71 { t.len() as int } else { 71 };
        lemma_rest_lines(t.skip(k));
        let ls = rest_lines(t);
        let first = seq![32u8] + t.take(k);
        assert(ls.drop_first() =~= rest_lines(t.skip(k)));
        assert(first.drop_first() =~= t.take(k));
        assert(t.take(k) + t.skip(k) =~= t);
        assert forall|i: int| 0 <= i < ls.len() implies #[trigger] ls[i].len() <= 72 && ls[i].len()
            >= 1 && ls[i][0] == 32u8 by {
            if i > 0 {
                assert(ls[i] == rest_lines(t.skip(k))[i - 1]);
            }
        }
    }
}

/// The wrapping of a manifest header keeps the format and loses nothing:
/// the wrapped text is its lines each followed by CRLF; no line exceeds 72
/// bytes; every line after the first starts with the one inserted space; and
/// the first line followed by the other lines stripped of that space gives
/// back the unwrapped header exactly.
pub proof fn lemma_wrap_header(s: Seq<u8>)
    ensures
        wrap_header(s) == join_lines(header_lines(s)),
        forall|i: int| 0 <= i < header_lines(s).len() ==> #[trigger] header_lines(s)[i].len() <= 72,
        forall|i: int|
            1 <= i < header_lines(s).len() ==> #[trigger] header_lines(s)[i].len() >= 1
                && header_lines(s)[i][0] == 32u8,
        header_lines(s)[0] + unwrap_rest(header_lines(s).drop_first()) == s,
{
    let k = if s.len() < 72 { s.len() as int } else { 72 };
    lemma_rest_lines(s.skip(k));
    let ls = header_lines(s);
    assert(ls.drop_first() =~= rest_lines(s.skip(k)));
    assert(s.take(k) + s.skip(k) =~= s);
    assert forall|i: int| 0 <= i < ls.len() implies #[trigger] ls[i].len() <= 72 by {
        if i > 0 {
            assert(ls[i] == rest_lines(s.skip(k))[i - 1]);
        }
    }
    assert forall|i: int| 1 <= i < ls.len() implies #[trigger] ls[i].len() >= 1 && ls[i][0]
        == 32u8 by {
        assert(ls[i] == rest_lines(s.skip(k))[i - 1]);
    }
}

/// Appends `s[from..to]`.
fn push_bytes(out: &mut Vec<u8>, s: &[u8], from: usize, to: usize)
    requires
        from <= to <= s@.len(),
    ensures
        final(out)@ == old(out)@ + s@.subrange(from as int, to as int),
{
    let mut i: usize = from;
    while i < to
        invariant
            from <= i <= to <= s@.len(),
            out@ == old(out)@ + s@.subrange(from as int, i as int),
        decreases to - i,
    {
        out.push(s[i]);
        i = i + 1;
        assert(out@ =~= old(out)@ + s@.subrange(from as int, i as int));
    }
}

/// Appends the header line `s` wrapped to the manifest format.
pub fn push_wrapped(out: &mut Vec<u8>, s: &[u8])
    ensures
        final(out)@ == old(out)@ + wrap_header(s@),
{
    let n = s.len();
    let k = if n < MAX_LINE { n } else { MAX_LINE };
    push_bytes(out, s, 0, k);
    out.push(13u8);
    out.push(10u8);
    assert(s@.subrange(0, k as int) =~= s@.take(k as int));
    assert(out@ =~= old(out)@ + s@.take(k as int) + crlf());
    let mut pos: usize = k;
    while pos < n
        invariant
            k <= pos <= n,
            n == s@.len(),
            out@ + wrap_rest(s@.skip(pos as int)) == old(out)@ + wrap_header(s@),
        decreases n - pos,
    {
        let ghost t = s@.skip(pos as int);
        let ghost before = out@;
        let m = if n - pos < 71 { n - pos } else { 71 };
        out.push(32u8);
        push_bytes(out, s, pos, pos + m);
        out.push(13u8);
        out.push(10u8);
        assert(t.take(m as int) =~= s@.subrange(pos as int, pos + m));
        assert(t.skip(m as int) =~= s@.skip(pos + m));
        assert(out@ =~= before + (seq![32u8] + t.take(m as int) + crlf()));
        pos = pos + m;
    }
    assert(s@.skip(pos as int) =~= Seq::<u8>::empty());
    assert(out@ =~= out@ + wrap_rest(s@.skip(pos as int)));
}

} // verus!
