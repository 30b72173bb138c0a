//! The graphics extensions that the headset's compositor requires, which it
//! reports as one space-separated, NUL-terminated string.
use vstd::prelude::*;

verus! {

pub const SPACE: u8 = 0x20;

/// The byte strings of `v`.
pub open spec fn byte_views(v: Seq<Vec<u8>>) -> Seq<Seq<u8>> {
    v.map_values(|x: Vec<u8>| x@)
}

/// `parts` written one after another with a space between each two.
pub open spec fn joined(parts: Seq<Seq<u8>>) -> Seq<u8>
    decreases parts.len(),
{
    if parts.len() == 0 {
        Seq::empty()
    } else if parts.len() == 1 {
        parts[0]
    } else {
        joined(parts.drop_last()) + seq![SPACE] + parts.last()
    }
}

/// The compositor's string: the bytes before its terminator.
pub open spec fn text_of(raw: Seq<u8>) -> Seq<u8> {
    if raw.len() == 0 {
        raw
    } else {
        raw.drop_last()
    }
}

/// Splits `text` at each space. The pieces hold no space and, joined with
/// spaces, give back `text`; two spaces in a row give an empty piece, and an
/// empty text one empty piece.
pub fn split_extension_list(text: &Vec<u8>) -> (r: Vec<Vec<u8>>)
    ensures
        r@.len() >= 1,
        joined(byte_views(r@)) == text@,
        forall|k: int| 0 <= k < r@.len() ==> !(#[trigger] r@[k])@.contains(SPACE),
{
    let mut parts: Vec<Vec<u8>> = Vec::new();
    let mut cur: Vec<u8> = Vec::new();
    let mut i: usize = 0;
    while i < text.len()
        invariant
            i <= text@.len(),
            joined(byte_views(parts@).push(cur@)) == text@.take(i as int),
            forall|k: int| 0 <= k < parts@.len() ==> !(#[trigger] parts@[k])@.contains(SPACE),
            !cur@.contains(SPACE),
        decreases text@.len() - i,
    {
        let b = text[i];
        let ghost ps = byte_views(parts@);
        let ghost c = cur@;
        if b == SPACE {
            let mut done: Vec<u8> = Vec::new();
            std::mem::swap(&mut done, &mut cur);
            parts.push(done);
            proof {
                assert(byte_views(parts@) =~= ps.push(c));
                let x = ps.push(c);
                assert(x.push(Seq::empty()).drop_last() =~= x);
                assert(x.push(Seq::<u8>::empty()).last() =~= Seq::<u8>::empty());
                assert(joined(x.push(Seq::empty())) =~= joined(x) + seq![SPACE]);
                assert(text@.take(i + 1) =~= text@.take(i as int) + seq![SPACE]);
                assert(cur@ =~= Seq::<u8>::empty());
            }
        } else {
            cur.push(b);
            proof {
                lemma_joined_push_byte(ps, c, b);
                assert(text@.take(i + 1) =~= text@.take(i as int).push(b));
                assert(!cur@.contains(SPACE)) by {
                    if cur@.contains(SPACE) {
                        let k = choose|k: int| 0 <= k < cur@.len() && cur@[k] == SPACE;
                        if k < c.len() {
                            assert(c[k] == SPACE);
                        }
                    }
                }
            }
        }
        i = i + 1;
    }
    let ghost ps = byte_views(parts@);
    let ghost c = cur@;
    parts.push(cur);
    proof {
        assert(byte_views(parts@) =~= ps.push(c));
        assert(text@.take(text@.len() as int) =~= text@);
    }
    parts
}

proof fn lemma_joined_push_byte(ps: Seq<Seq<u8>>, p: Seq<u8>, b: u8)
    ensures
        joined(ps.push(p.push(b))) == joined(ps.push(p)).push(b),
{
    assert(ps.push(p.push(b)).drop_last() =~= ps);
    assert(ps.push(p).drop_last() =~= ps);
    if ps.len() == 0 {
        assert(joined(ps.push(p.push(b))) == p.push(b));
    } else {
        assert(joined(ps) + seq![SPACE] + p.push(b) =~= (joined(ps) + seq![SPACE] + p).push(b));
    }
}

/// `v` with each name of `exts` added, in order, unless already there.
pub open spec fn with_added(v: Seq<Seq<u8>>, exts: Seq<Seq<u8>>) -> Seq<Seq<u8>>
    decreases exts.len(),
{
    if exts.len() == 0 {
        v
    } else {
        let w = with_added(v, exts.drop_last());
        if w.contains(exts.last()) {
            w
        } else {
            w.push(exts.last())
        }
    }
}

fn same_bytes(a: &Vec<u8>, b: &Vec<u8>) -> (r: bool)
    ensures
        r == (a@ == b@),
{
    if a.len() != b.len() {
        return false;
    }
    let mut i: usize = 0;
    while i < a.len()
        invariant
            a@.len() == b@.len(),
            i <= a@.len(),
            a@.take(i as int) == b@.take(i as int),
        decreases a@.len() - i,
    {
        if a[i] != b[i] {
            assert(a@.take(i + 1)[i as int] != b@.take(i + 1)[i as int]);
            assert(a@ != b@) by {
                assert(a@[i as int] != b@[i as int]);
            }
            return false;
        }
        assert(a@.take(i + 1) =~= b@.take(i + 1));
        i = i + 1;
    }
    assert(a@ =~= a@.take(a@.len() as int));
    assert(b@ =~= b@.take(b@.len() as int));
    true
}

fn contains_name(v: &Vec<Vec<u8>>, e: &Vec<u8>) -> (r: bool)
    ensures
        r == byte_views(v@).contains(e@),
{
    let mut i: usize = 0;
    while i < v.len()
        invariant
            i <= v@.len(),
            forall|k: int| 0 <= k < i ==> v@[k]@ != e@,
        decreases v@.len() - i,
    {
        if same_bytes(&v[i], e) {
            assert(byte_views(v@)[i as int] == e@);
            return true;
        }
        i = i + 1;
    }
    assert(!byte_views(v@).contains(e@)) by {
        if byte_views(v@).contains(e@) {
            let k = choose|k: int| 0 <= k < v@.len() && byte_views(v@)[k] == e@;
            assert(v@[k]@ == e@);
        }
    }
    false
}

/// Adds each name of `exts` that `v` lacks, in order.
pub fn add_if_doesnt_exist(v: &mut Vec<Vec<u8>>, exts: Vec<Vec<u8>>)
    ensures
        byte_views(final(v)@) == with_added(byte_views(old(v)@), byte_views(exts@)),
{
    let ghost v0 = byte_views(v@);
    let ghost e = byte_views(exts@);
    let mut rest = exts;
    let mut i: usize = 0;
    let ghost n = rest@.len();
    assert(n == rest.len());
    while rest.len() > 0
        invariant
            i + rest@.len() == n,
            n <= usize::MAX,
            n == e.len(),
            byte_views(rest@) == e.subrange(i as int, n as int),
            byte_views(v@) == with_added(v0, e.take(i as int)),
        decreases rest@.len(),
    {
        let ghost r0 = rest@;
        assert(byte_views(r0)[0] == e.subrange(i as int, n as int)[0]);
        let x = rest.remove(0);
        proof {
            assert(x@ == e[i as int]);
            assert forall|k: int| 0 <= k < rest@.len() implies byte_views(rest@)[k] == e.subrange(i + 1, n as int)[k] by {
                assert(rest@[k] == r0[k + 1]);
                assert(byte_views(r0)[k + 1] == e.subrange(i as int, n as int)[k + 1]);
            }
            assert(e.take(i + 1).drop_last() =~= e.take(i as int));
            assert(e.take(i + 1).last() == e[i as int]);
        }
        let ghost w = byte_views(v@);
        if !contains_name(v, &x) {
            v.push(x);
            assert(byte_views(v@) =~= w.push(e[i as int]));
        }
        assert(byte_views(rest@) =~= e.subrange(i + 1, n as int));
        i = i + 1;
    }
    assert(e.take(n as int) =~= e);
}

/// The compositor's extension names, asked for once and kept.
pub struct ExtensionCache {
    names: Vec<Vec<u8>>,
}

impl ExtensionCache {
    pub closed spec fn names_view(&self) -> Seq<Seq<u8>> {
        byte_views(self.names@)
    }

    /// A cache that has not asked yet.
    pub fn new() -> (r: ExtensionCache)
        ensures
            r.names_view().len() == 0,
    {
        let r = ExtensionCache { names: Vec::new() };
        assert(r.names_view() =~= Seq::<Seq<u8>>::empty());
        r
    }

    /// On first use, asks the compositor with `query` for its string (with
    /// the terminator) and keeps its names; later calls ask nothing.
    pub fn fill_if_empty<F: FnOnce() -> Vec<u8>>(&mut self, query: F)
        requires
            query.requires(()),
        ensures
            old(self).names_view().len() > 0 ==> final(self).names_view() == old(self).names_view(),
            old(self).names_view().len() == 0 ==> exists|raw: Vec<u8>|
                query.ensures((), raw) && joined(final(self).names_view()) == text_of(raw@),
            final(self).names_view().len() > 0,
    {
        if self.names.len() == 0 {
            let mut raw = query();
            if raw.len() > 0 {
                raw.pop();
            }
            self.names = split_extension_list(&raw);
        }
    }

    /// The names kept, each without its separator.
    pub fn names(&self) -> (r: &Vec<Vec<u8>>)
        ensures
            byte_views(r@) == self.names_view(),
    {
        &self.names
    }
}

} // verus!
