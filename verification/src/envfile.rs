//! The env-file artifact: a newline-delimited sequence of shell-style
//! `export KEY="VALUE"` assignments, rewritten wholesale so an out-of-process
//! reader always sees a consistent snapshot.
//!
//! Rendering is executable and exact; reading is specified, and the round
//! trip between the two is proved: a reader of the file recovers exactly the
//! pairs that were written, in the order they were written.

use vstd::prelude::*;

verus! {

/// One variable of the derived configuration.
pub struct EnvVar {
    pub key: Vec<u8>,
    pub value: Vec<u8>,
}

/// The key and value bytes of a sequence of variables.
pub open spec fn env_views(vars: Seq<EnvVar>) -> Seq<(Seq<u8>, Seq<u8>)> {
    vars.map(|i: int, v: EnvVar| (v.key@, v.value@))
}

/// Bytes allowed in a key: ASCII letters, digits and underscore.
pub open spec fn is_key_byte(b: u8) -> bool {
    (0x41u8 <= b && b <= 0x5au8) || (0x61u8 <= b && b <= 0x7au8) || (0x30u8 <= b && b <= 0x39u8)
        || b == 0x5fu8
}

/// A key is non-empty and made of key bytes only.
pub open spec fn valid_key(k: Seq<u8>) -> bool {
    k.len() > 0 && (forall|i: int| 0 <= i < k.len() ==> is_key_byte(k[i]))
}

/// A value must not contain the closing quote or a newline, so that the
/// rendered line stays one line and the quotes stay balanced.
pub open spec fn valid_value(v: Seq<u8>) -> bool {
    forall|i: int| 0 <= i < v.len() ==> v[i] != 0x22u8 && v[i] != 0x0au8
}

pub open spec fn valid_pairs(pairs: Seq<(Seq<u8>, Seq<u8>)>) -> bool {
    forall|i: int| 0 <= i < pairs.len() ==> valid_key(#[trigger] pairs[i].0) && valid_value(
        pairs[i].1,
    )
}

/// The bytes of `export ` that open every line.
pub open spec fn export_prefix() -> Seq<u8> {
    seq![0x65u8, 0x78u8, 0x70u8, 0x6fu8, 0x72u8, 0x74u8, 0x20u8]
}

/// One rendered line: `export KEY="VALUE"` and a newline.
pub open spec fn render_line_spec(k: Seq<u8>, v: Seq<u8>) -> Seq<u8> {
    export_prefix() + k + seq![0x3du8, 0x22u8] + v + seq![0x22u8, 0x0au8]
}

/// The whole rendered file: every pair's line, in the order given.
pub open spec fn render_env_spec(pairs: Seq<(Seq<u8>, Seq<u8>)>) -> Seq<u8>
    decreases pairs.len(),
{
    if pairs.len() == 0 {
        Seq::empty()
    } else {
        render_line_spec(pairs[0].0, pairs[0].1) + render_env_spec(pairs.skip(1))
    }
}

/// Appends the bytes of `b` to `out`.
pub fn push_bytes(out: &mut Vec<u8>, b: &Vec<u8>)
    ensures
        final(out)@ == old(out)@ + b@,
{
    let mut i: usize = 0;
    while i < b.len()
        invariant
            i <= b.len(),
            out@ == old(out)@ + b@.take(i as int),
        decreases b.len() - i,
    {
        out.push(b[i]);
        assert(out@ =~= old(out)@ + b@.take(i + 1 as int));
        i += 1;
    }
    assert(out@ =~= old(out)@ + b@);
}

/// Renders one `export KEY="VALUE"` line with its trailing newline.
pub fn render_line(key: &Vec<u8>, value: &Vec<u8>) -> (out: Vec<u8>)
    ensures
        out@ == render_line_spec(key@, value@),
{
    let mut out: Vec<u8> = Vec::new();
    out.push(0x65u8);
    out.push(0x78u8);
    out.push(0x70u8);
    out.push(0x6fu8);
    out.push(0x72u8);
    out.push(0x74u8);
    out.push(0x20u8);
    assert(out@ =~= export_prefix());
    push_bytes(&mut out, key);
    out.push(0x3du8);
    out.push(0x22u8);
    push_bytes(&mut out, value);
    out.push(0x22u8);
    out.push(0x0au8);
    assert(out@ =~= render_line_spec(key@, value@));
    out
}

pub proof fn lemma_render_env_snoc(pairs: Seq<(Seq<u8>, Seq<u8>)>, p: (Seq<u8>, Seq<u8>))
    ensures
        render_env_spec(pairs.push(p)) == render_env_spec(pairs) + render_line_spec(p.0, p.1),
    decreases pairs.len(),
{
    if pairs.len() == 0 {
        assert(pairs.push(p).skip(1) =~= Seq::<(Seq<u8>, Seq<u8>)>::empty());
        assert(render_env_spec(pairs.push(p)) =~= render_line_spec(p.0, p.1)
            + render_env_spec(Seq::empty()));
        assert(render_env_spec(pairs.push(p)) =~= render_env_spec(pairs) + render_line_spec(
            p.0,
            p.1,
        ));
    } else {
        assert(pairs.push(p).skip(1) =~= pairs.skip(1).push(p));
        lemma_render_env_snoc(pairs.skip(1), p);
        assert(render_env_spec(pairs.push(p)) =~= render_env_spec(pairs) + render_line_spec(
            p.0,
            p.1,
        ));
    }
}

/// Renders the whole env-file: every variable's export line, in order. The
/// file is meant to be written in one atomic replace, never appended to in
/// place.
pub fn render_env(vars: &Vec<EnvVar>) -> (out: Vec<u8>)
    ensures
        out@ == render_env_spec(env_views(vars@)),
{
    let mut out: Vec<u8> = Vec::new();
    let mut i: usize = 0;
    assert(render_env_spec(env_views(vars@).take(0)) =~= Seq::<u8>::empty());
    while i < vars.len()
        invariant
            i <= vars.len(),
            out@ == render_env_spec(env_views(vars@).take(i as int)),
        decreases vars.len() - i,
    {
        let line = render_line(&vars[i].key, &vars[i].value);
        push_bytes(&mut out, &line);
        proof {
            let pairs = env_views(vars@);
            lemma_render_env_snoc(pairs.take(i as int), pairs[i as int]);
            assert(pairs.take(i as int).push(pairs[i as int]) =~= pairs.take(i + 1 as int));
        }
        i += 1;
    }
    assert(env_views(vars@).take(vars@.len() as int) =~= env_views(vars@));
    out
}

/// The first position of `b` in `s`, or -1 when `s` does not contain it.
pub open spec fn index_of(s: Seq<u8>, b: u8) -> int
    decreases s.len(),
{
    if s.len() == 0 {
        -1
    } else if s[0] == b {
        0
    } else if index_of(s.skip(1), b) < 0 {
        -1
    } else {
        index_of(s.skip(1), b) + 1
    }
}

/// Reads one line: `export `, a key up to `=`, a quoted value, a newline;
/// yields the key, the value and the bytes after the line.
pub open spec fn parse_line_spec(s: Seq<u8>) -> Option<(Seq<u8>, Seq<u8>, Seq<u8>)> {
    if s.len() < 7 || s.take(7) != export_prefix() {
        None
    } else {
        let after = s.skip(7);
        let eq = index_of(after, 0x3du8);
        if eq < 0 {
            None
        } else {
            let key = after.take(eq);
            let after_key = after.skip(eq + 1);
            if !valid_key(key) || after_key.len() == 0 || after_key[0] != 0x22u8 {
                None
            } else {
                let quoted = after_key.skip(1);
                let q = index_of(quoted, 0x22u8);
                if q < 0 {
                    None
                } else {
                    let value = quoted.take(q);
                    let after_value = quoted.skip(q + 1);
                    if !valid_value(value) || after_value.len() == 0 || after_value[0] != 0x0au8 {
                        None
                    } else {
                        Some((key, value, after_value.skip(1)))
                    }
                }
            }
        }
    }
}

/// Reads a whole env-file back into its pairs: every line in order, and
/// nothing but well-formed lines.
pub open spec fn parse_env_spec(s: Seq<u8>) -> Option<Seq<(Seq<u8>, Seq<u8>)>>
    decreases s.len(),
{
    if s.len() == 0 {
        Some(Seq::empty())
    } else {
        match parse_line_spec(s) {
            None => None,
            Some((k, v, rest)) => if rest.len() < s.len() {
                match parse_env_spec(rest) {
                    None => None,
                    Some(tail) => Some(seq![(k, v)] + tail),
                }
            } else {
                None
            },
        }
    }
}

pub proof fn lemma_index_of_first(p: Seq<u8>, b: u8, tail: Seq<u8>)
    requires
        forall|i: int| 0 <= i < p.len() ==> p[i] != b,
    ensures
        index_of(p + seq![b] + tail, b) == p.len(),
    decreases p.len(),
{
    let s = p + seq![b] + tail;
    if p.len() == 0 {
        assert(s[0] == b);
    } else {
        assert(s[0] == p[0]);
        assert(s.skip(1) =~= p.skip(1) + seq![b] + tail);
        assert(forall|i: int| 0 <= i < p.skip(1).len() ==> p.skip(1)[i] != b);
        lemma_index_of_first(p.skip(1), b, tail);
    }
}

/// One line parses back to exactly the pair it was rendered from, whatever
/// follows it.
pub proof fn lemma_parse_render_line(k: Seq<u8>, v: Seq<u8>, rest: Seq<u8>)
    requires
        valid_key(k),
        valid_value(v),
    ensures
        parse_line_spec(render_line_spec(k, v) + rest) == Some((k, v, rest)),
{
    let s = render_line_spec(k, v) + rest;
    assert(s =~= export_prefix() + (k + seq![0x3du8] + (seq![0x22u8] + v + seq![0x22u8] + (seq![0x0au8]
        + rest))));
    assert(s.take(7) =~= export_prefix());
    let after = s.skip(7);
    assert(after =~= k + seq![0x3du8] + (seq![0x22u8] + v + seq![0x22u8] + (seq![0x0au8] + rest)));
    assert(forall|i: int| 0 <= i < k.len() ==> k[i] != 0x3du8);
    lemma_index_of_first(k, 0x3du8, seq![0x22u8] + v + seq![0x22u8] + (seq![0x0au8] + rest));
    assert(index_of(after, 0x3du8) == k.len());
    assert(after.take(k.len() as int) =~= k);
    let after_key = after.skip(k.len() as int + 1);
    assert(after_key =~= seq![0x22u8] + v + seq![0x22u8] + (seq![0x0au8] + rest));
    assert(after_key[0] == 0x22u8);
    let quoted = after_key.skip(1);
    assert(quoted =~= v + seq![0x22u8] + (seq![0x0au8] + rest));
    assert(forall|i: int| 0 <= i < v.len() ==> v[i] != 0x22u8);
    lemma_index_of_first(v, 0x22u8, seq![0x0au8] + rest);
    assert(index_of(quoted, 0x22u8) == v.len());
    assert(quoted.take(v.len() as int) =~= v);
    let after_value = quoted.skip(v.len() as int + 1);
    assert(after_value =~= seq![0x0au8] + rest);
    assert(after_value[0] == 0x0au8);
    assert(after_value.skip(1) =~= rest);
}

/// Law: the round trip through the env-file is the identity. Writing any
/// sequence of well-formed key/value pairs and reading the file back yields
/// exactly those pairs, in the order they were written.
pub proof fn lemma_env_round_trip(pairs: Seq<(Seq<u8>, Seq<u8>)>)
    requires
        valid_pairs(pairs),
    ensures
        parse_env_spec(render_env_spec(pairs)) == Some(pairs),
    decreases pairs.len(),
{
    if pairs.len() == 0 {
        assert(render_env_spec(pairs).len() == 0);
        assert(parse_env_spec(render_env_spec(pairs)) == Some(Seq::<(Seq<u8>, Seq<u8>)>::empty()));
        assert(pairs =~= Seq::<(Seq<u8>, Seq<u8>)>::empty());
    } else {
        let k = pairs[0].0;
        let v = pairs[0].1;
        let tail = pairs.skip(1);
        let s = render_env_spec(pairs);
        assert(s == render_line_spec(k, v) + render_env_spec(tail));
        lemma_parse_render_line(k, v, render_env_spec(tail));
        assert(render_line_spec(k, v).len() >= 11);
        assert(s.len() == render_line_spec(k, v).len() + render_env_spec(tail).len());
        assert(valid_pairs(tail));
        lemma_env_round_trip(tail);
        assert(parse_env_spec(s) == Some(seq![(k, v)] + tail));
        assert(seq![(k, v)] + tail =~= pairs);
    }
}

/// The key under which the federation's invite code is appended to the
/// env-file: the bytes of `FM_INVITE_CODE`.
pub open spec fn invite_key() -> Seq<u8> {
    seq![0x46u8, 0x4du8, 0x5fu8, 0x49u8, 0x4eu8, 0x56u8, 0x49u8, 0x54u8, 0x45u8, 0x5fu8, 0x43u8, 0x4fu8, 0x44u8, 0x45u8]
}

/// The bytes of the invite-code key.
pub fn invite_key_bytes() -> (k: Vec<u8>)
    ensures
        k@ == invite_key(),
        valid_key(k@),
{
    let mut k: Vec<u8> = Vec::new();
    k.push(0x46u8);
    k.push(0x4du8);
    k.push(0x5fu8);
    k.push(0x49u8);
    k.push(0x4eu8);
    k.push(0x56u8);
    k.push(0x49u8);
    k.push(0x54u8);
    k.push(0x45u8);
    k.push(0x5fu8);
    k.push(0x43u8);
    k.push(0x4fu8);
    k.push(0x44u8);
    k.push(0x45u8);
    assert(k@ =~= invite_key());
    assert(forall|i: int| 0 <= i < invite_key().len() ==> is_key_byte(invite_key()[i]));
    k
}

/// The new content of the env-file once the invite code is known: the old
/// content with one `export FM_INVITE_CODE="..."` line appended.
pub fn append_invite_line(env: &Vec<u8>, invite: &Vec<u8>) -> (out: Vec<u8>)
    ensures
        out@ == env@ + render_line_spec(invite_key(), invite@),
{
    let key = invite_key_bytes();
    let line = render_line(&key, invite);
    let mut out = crate::poll::clone_bytes(env);
    push_bytes(&mut out, &line);
    out
}

/// The invite line is appended only when both the env-file and the
/// invite-code file already exist; with no env-file there is nothing to
/// extend, and with no invite code there is nothing to say. The invite code
/// can materialize a moment after the ready-file, so a caller gives the
/// invite-code file its own short bounded poll before deciding; one that
/// never comes leaves the env-file unchanged.
pub fn should_append_invite(env_exists: bool, invite_exists: bool) -> (b: bool)
    ensures
        b == (env_exists && invite_exists),
{
    env_exists && invite_exists
}

} // verus!
