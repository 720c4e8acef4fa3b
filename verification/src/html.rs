//! Request paths and plain HTTP request lines.
//!
//! A `Path` is the sequence of components of a path string written with
//! either `/` or `\` delimiters; splitting keeps empty components, so
//! rendering with `/` restores the original text up to delimiter
//! normalization. `get_string` and `get_custom_string` build the one-line
//! GET requests the plain client writes onto its socket.

use vstd::prelude::*;
use vstd::string::StringExecFns;
use vstd::string::StrSliceExecFns;

verus! {

/// The two characters accepted as path delimiters.
pub open spec fn path_delim(c: char) -> bool {
    c == '/' || c == '\\'
}

/// The components of `s`: splitting on every delimiter, keeping empty
/// components, so a text of `n` delimiters has `n + 1` components.
pub open spec fn split_path(s: Seq<char>) -> Seq<Seq<char>>
    decreases s.len(),
{
    if s.len() == 0 {
        seq![Seq::<char>::empty()]
    } else {
        let rest = split_path(s.drop_last());
        if path_delim(s.last()) {
            rest.push(Seq::empty())
        } else {
            rest.drop_last().push(rest.last().push(s.last()))
        }
    }
}

/// Splitting always yields at least one component.
pub proof fn lemma_split_path_len(s: Seq<char>)
    ensures
        split_path(s).len() >= 1,
    decreases s.len(),
{
    if s.len() > 0 {
        lemma_split_path_len(s.drop_last());
    }
}

/// Every component followed by one copy of the delimiter.
pub open spec fn join_with(parts: Seq<Seq<char>>, delim: Seq<char>) -> Seq<char>
    decreases parts.len(),
{
    if parts.len() == 0 {
        Seq::empty()
    } else {
        join_with(parts.drop_last(), delim) + parts.last() + delim
    }
}

/// What rendering a path produces: the join, with the one trailing
/// character taken back off (nothing when the join is empty).
pub open spec fn render_with(parts: Seq<Seq<char>>, delim: Seq<char>) -> Seq<char> {
    let j = join_with(parts, delim);
    if j.len() == 0 {
        j
    } else {
        j.drop_last()
    }
}

/// The views of a list of strings.
pub open spec fn views_of(ss: Seq<String>) -> Seq<Seq<char>> {
    Seq::new(ss.len(), |i: int| ss[i]@)
}

/// A request path, held as its components.
#[derive(Debug)]
pub struct Path {
    p: Vec<String>,
}

impl Path {
    /// The components, as sequences of characters.
    pub closed spec fn view(&self) -> Seq<Seq<char>> {
        views_of(self.p@)
    }

    /// Split `s` into its components on either delimiter.
    pub fn new(s: &str) -> (r: Path)
        ensures
            r@ == split_path(s@),
    {
        let len = s.unicode_len();
        let mut parts: Vec<String> = Vec::new();
        let mut start: usize = 0;
        let mut i: usize = 0;
        proof {
            assert(s@.take(0) =~= Seq::<char>::empty());
            assert(s@.subrange(0, 0) =~= Seq::<char>::empty());
            assert(views_of(parts@).push(s@.subrange(0, 0)) =~~= split_path(s@.take(0)));
        }
        while i < len
            invariant
                len == s@.len(),
                0 <= start <= i <= len,
                views_of(parts@).push(s@.subrange(start as int, i as int)) == split_path(
                    s@.take(i as int),
                ),
            decreases len - i,
        {
            let c = s.get_char(i);
            proof {
                assert(s@.take(i + 1).drop_last() =~= s@.take(i as int));
                assert(s@.take(i + 1).last() == s@[i as int]);
                lemma_split_path_len(s@.take(i as int));
            }
            if c == '/' || c == '\\' {
                let piece = s.substring_char(start, i).to_owned();
                parts.push(piece);
                proof {
                    assert(views_of(parts@) =~~= views_of(parts@.drop_last()).push(
                        s@.subrange(start as int, i as int),
                    ));
                    assert(s@.subrange(i + 1, i + 1) =~= Seq::<char>::empty());
                    assert(views_of(parts@).push(s@.subrange(i + 1, i + 1)) =~~= split_path(
                        s@.take(i + 1),
                    ));
                }
                start = i + 1;
            } else {
                proof {
                    let prev = split_path(s@.take(i as int));
                    assert(prev.drop_last() =~~= views_of(parts@));
                    assert(prev.last() == s@.subrange(start as int, i as int));
                    assert(s@.subrange(start as int, i + 1) =~= s@.subrange(
                        start as int,
                        i as int,
                    ).push(s@[i as int]));
                    assert(views_of(parts@).push(s@.subrange(start as int, i + 1)) =~~= split_path(
                        s@.take(i + 1),
                    ));
                }
            }
            i = i + 1;
        }
        let piece = s.substring_char(start, len).to_owned();
        parts.push(piece);
        proof {
            assert(s@.take(len as int) =~= s@);
            assert(views_of(parts@) =~~= views_of(parts@.drop_last()).push(
                s@.subrange(start as int, len as int),
            ));
            assert(views_of(parts@) =~~= split_path(s@));
        }
        Path { p: parts }
    }

    /// Render the components joined by `delim`, with the one trailing
    /// delimiter character taken back off.
    pub fn to_string_custom(&self, delim: &str) -> (r: String)
        ensures
            r@ == render_with(self@, delim@),
    {
        let mut s = String::new();
        let n = self.p.len();
        for i in 0..n
            invariant
                n == self.p@.len(),
                s@ == join_with(self@.take(i as int), delim@),
        {
            let part = &self.p[i];
            s.append(part.as_str());
            s.append(delim);
            proof {
                assert(self@.take(i + 1).drop_last() =~~= self@.take(i as int));
                assert(self@.take(i + 1).last() == self.p@[i as int]@);
                assert(s@ =~= join_with(self@.take(i + 1), delim@));
            }
        }
        proof {
            assert(self@.take(n as int) =~~= self@);
        }
        let total = s.unicode_len();
        if total == 0 {
            s
        } else {
            s.as_str().substring_char(0, total - 1).to_owned()
        }
    }

    /// Render with the default delimiter `/`.
    pub fn to_string(&self) -> (r: String)
        ensures
            r@ == render_with(self@, "/"@),
    {
        self.to_string_custom("/")
    }
}

impl PartialEq for Path {
    /// Two paths are equal when they hold the same components.
    fn eq(&self, other: &Path) -> (r: bool) {
        if self.p.len() != other.p.len() {
            proof {
                assert(self@.len() != other@.len());
            }
            return false;
        }
        let n = self.p.len();
        for i in 0..n
            invariant
                n == self.p@.len(),
                n == other.p@.len(),
                forall|k: int| 0 <= k < i ==> self.p@[k]@ == other.p@[k]@,
        {
            if !(self.p[i] == other.p[i]) {
                proof {
                    assert(self@[i as int] != other@[i as int]);
                }
                return false;
            }
        }
        proof {
            assert(self@ =~= other@);
        }
        true
    }
}

impl vstd::std_specs::cmp::PartialEqSpecImpl for Path {
    open spec fn obeys_eq_spec() -> bool {
        true
    }

    open spec fn eq_spec(&self, other: &Path) -> bool {
        self@ == other@
    }
}

/// The request line of a plain GET for the given path, rendered with `/`.
pub fn get_custom_string(p: &Path) -> (r: String)
    ensures
        r@ == "GET "@ + render_with(p@, "/"@) + " HTTP/1.1\r\n"@,
{
    let mut s = String::from_str("GET ");
    let body = p.to_string_custom("/");
    s.append(body.as_str());
    s.append(" HTTP/1.1\r\n");
    proof {
        assert(s@ =~= "GET "@ + render_with(p@, "/"@) + " HTTP/1.1\r\n"@);
    }
    s
}

/// The request line of a plain GET for the root path.
pub fn get_string() -> (r: String)
    ensures
        r@ == "GET / HTTP/1.1\r\n"@,
{
    let p = Path::new("/");
    let r = get_custom_string(&p);
    proof {
        reveal_strlit("/");
        reveal_strlit("GET ");
        reveal_strlit(" HTTP/1.1\r\n");
        reveal_strlit("GET / HTTP/1.1\r\n");
        reveal_with_fuel(split_path, 3);
        reveal_with_fuel(join_with, 4);
        let e = Seq::<char>::empty();
        let s1 = "/"@;
        assert(s1.len() == 1);
        assert(path_delim(s1.last()));
        assert(s1.drop_last() =~= e);
        assert(split_path(e) =~~= seq![e]);
        assert(split_path(s1) =~~= seq![e, e]);
        assert(seq![e, e].drop_last() =~~= seq![e]);
        assert(seq![e].drop_last() =~~= Seq::<Seq<char>>::empty());
        assert(join_with(seq![e], s1) =~= s1);
        assert(join_with(seq![e, e], s1) =~= s1 + s1);
        assert(render_with(split_path(s1), s1) =~= s1);
        assert(r@ =~= "GET / HTTP/1.1\r\n"@);
    }
    r
}

/// What normalizing the delimiters of a text leaves: every delimiter
/// becomes `/`, every other character stays.
pub open spec fn normalize_delims(s: Seq<char>) -> Seq<char> {
    s.map_values(|c: char| if path_delim(c) { '/' } else { c })
}

/// A text splits exactly as its normalized form does: the two delimiters
/// are interchangeable, so the same path written with `/` or with `\`
/// yields equal `Path` values.
pub proof fn lemma_split_delim_insensitive(s: Seq<char>)
    ensures
        split_path(normalize_delims(s)) == split_path(s),
    decreases s.len(),
{
    if s.len() == 0 {
        assert(normalize_delims(s) =~= s);
    } else {
        lemma_split_delim_insensitive(s.drop_last());
        let ns = normalize_delims(s);
        assert(ns.len() == s.len());
        assert(ns.drop_last() =~= normalize_delims(s.drop_last()));
        assert(ns.last() == (if path_delim(s.last()) {
            '/'
        } else {
            s.last()
        }));
        assert(split_path(ns) =~~= split_path(s));
    }
}

proof fn lemma_join_of_split(s: Seq<char>)
    ensures
        join_with(split_path(s), seq!['/']) == normalize_delims(s).push('/'),
    decreases s.len(),
{
    let sl = seq!['/'];
    reveal_with_fuel(join_with, 3);
    if s.len() == 0 {
        let e = Seq::<char>::empty();
        assert(seq![e].drop_last() =~~= Seq::<Seq<char>>::empty());
        assert(join_with(Seq::<Seq<char>>::empty(), sl) =~= Seq::<char>::empty());
        assert(join_with(seq![e], sl) =~= sl);
        assert(normalize_delims(s).push('/') =~= sl);
    } else {
        lemma_join_of_split(s.drop_last());
        lemma_split_path_len(s.drop_last());
        let s0 = s.drop_last();
        let rest = split_path(s0);
        let c = s.last();
        assert(normalize_delims(s).drop_last() =~= normalize_delims(s0));
        if path_delim(c) {
            assert(split_path(s) == rest.push(Seq::<char>::empty()));
            assert(rest.push(Seq::<char>::empty()).drop_last() =~~= rest);
            assert(join_with(split_path(s), sl) =~= join_with(rest, sl) + sl);
            assert(normalize_delims(s).last() == '/');
            assert(join_with(split_path(s), sl) =~= normalize_delims(s).push('/'));
        } else {
            let parts2 = rest.drop_last().push(rest.last().push(c));
            assert(split_path(s) == parts2);
            assert(parts2.drop_last() =~~= rest.drop_last());
            assert(parts2.last() == rest.last().push(c));
            // join(rest) = join(rest.drop_last()) + rest.last() + ['/'],
            // and by induction it equals normalize(s0) + ['/']; peel the
            // final '/' off both sides to recover the prefix.
            let a = join_with(rest.drop_last(), sl) + rest.last();
            assert(join_with(rest, sl) =~= a + sl);
            assert(a + sl =~= normalize_delims(s0).push('/'));
            assert(a =~= normalize_delims(s0)) by {
                assert(a.len() == normalize_delims(s0).len());
                assert forall|k: int| 0 <= k < a.len() implies a[k] == normalize_delims(s0)[k] by {
                    assert(a[k] == (a + sl)[k]);
                    assert(normalize_delims(s0)[k] == normalize_delims(s0).push('/')[k]);
                }
            }
            assert(join_with(parts2, sl) =~= a + seq![c] + sl);
            assert(normalize_delims(s).last() == c);
            assert(join_with(split_path(s), sl) =~= normalize_delims(s).push('/'));
        }
    }
}

/// Splitting and rendering round-trip: rendering the components of `s`
/// with `/` gives back `s`, with every delimiter normalized to `/`.
pub proof fn lemma_path_round_trip(s: Seq<char>)
    ensures
        render_with(split_path(s), "/"@) == normalize_delims(s),
{
    reveal_strlit("/");
    assert("/"@ =~= seq!['/']);
    lemma_join_of_split(s);
    let j = join_with(split_path(s), seq!['/']);
    assert(j.len() > 0);
    assert(j.drop_last() =~= normalize_delims(s));
}

} // verus!
