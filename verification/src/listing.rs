use vstd::prelude::*;
use vstd::string::StrSliceExecFns;
use vstd::string::StringExecFns;
use vstd::string::StringSliceAdditionalSpecFns;
use vstd::utf8::encode_utf8;

verus! {

/// One entry of the current working directory, as the environment reports
/// it: its file name and whether it is a directory.
pub struct FileEntry {
    pub name: String,
    pub is_dir: bool,
}

impl View for FileEntry {
    type V = (Seq<char>, bool);

    open spec fn view(&self) -> (Seq<char>, bool) {
        (self.name@, self.is_dir)
    }
}

/// The name an entry is listed under: directories carry a trailing
/// separator.
pub open spec fn spec_decorated(name: Seq<char>, is_dir: bool) -> Seq<char> {
    if is_dir {
        name + "/"@
    } else {
        name
    }
}

/// Byte-wise lexicographic order on encoded strings: the order in which
/// file names are listed.
pub open spec fn spec_bytes_le(a: Seq<u8>, b: Seq<u8>) -> bool
    decreases a.len(),
{
    if a.len() == 0 {
        true
    } else if b.len() == 0 {
        false
    } else if a.first() < b.first() {
        true
    } else if a.first() > b.first() {
        false
    } else {
        spec_bytes_le(a.drop_first(), b.drop_first())
    }
}

/// Lexicographic order on strings, through their UTF-8 encodings.
pub open spec fn spec_str_le(a: Seq<char>, b: Seq<char>) -> bool {
    spec_bytes_le(encode_utf8(a), encode_utf8(b))
}

/// Stable insertion of `x` into `s`: after every element it does not
/// precede.
pub open spec fn spec_insert_sorted(x: Seq<char>, s: Seq<Seq<char>>) -> Seq<Seq<char>>
    decreases s.len(),
{
    if s.len() == 0 {
        seq![x]
    } else if spec_str_le(s.first(), x) {
        seq![s.first()] + spec_insert_sorted(x, s.drop_first())
    } else {
        seq![x] + s
    }
}

/// Insertion sort of a name list, stable and byte-lexicographic.
pub open spec fn spec_sort_names(s: Seq<Seq<char>>) -> Seq<Seq<char>>
    decreases s.len(),
{
    if s.len() == 0 {
        Seq::empty()
    } else {
        spec_insert_sorted(s.last(), spec_sort_names(s.drop_last()))
    }
}

/// The parts joined with a comma and a space between them.
pub open spec fn spec_join_comma(parts: Seq<Seq<char>>) -> Seq<char>
    decreases parts.len(),
{
    if parts.len() == 0 {
        Seq::empty()
    } else if parts.len() == 1 {
        parts.first()
    } else {
        parts.first() + ", "@ + spec_join_comma(parts.drop_first())
    }
}

/// The views of a list of strings.
pub open spec fn views_of(s: Seq<String>) -> Seq<Seq<char>> {
    s.map_values(|x: String| x@)
}

/// The listing built for a set of directory entries: each name decorated,
/// the whole sorted, then joined with commas.
pub open spec fn spec_file_listing(entries: Seq<(Seq<char>, bool)>) -> Seq<char> {
    spec_join_comma(spec_sort_names(entries.map_values(|e: (Seq<char>, bool)| spec_decorated(e.0, e.1))))
}

/// Compares two strings in byte-lexicographic order.
fn str_le(a: &str, b: &str) -> (r: bool)
    ensures
        r == spec_str_le(a@, b@),
{
    let ab = a.as_bytes();
    let bb = b.as_bytes();
    proof {
        assert(ab@.skip(0) =~= ab@);
        assert(bb@.skip(0) =~= bb@);
    }
    let mut i: usize = 0;
    while i < ab.len() && i < bb.len()
        invariant
            ab@ == encode_utf8(a@),
            bb@ == encode_utf8(b@),
            i <= ab@.len(),
            i <= bb@.len(),
            spec_bytes_le(ab@.skip(i as int), bb@.skip(i as int)) == spec_bytes_le(ab@, bb@),
        decreases ab@.len() - i,
    {
        proof {
            assert(ab@.skip(i as int).first() == ab@[i as int]);
            assert(bb@.skip(i as int).first() == bb@[i as int]);
        }
        if ab[i] < bb[i] {
            return true;
        }
        if ab[i] > bb[i] {
            return false;
        }
        proof {
            assert(ab@.skip(i as int).drop_first() =~= ab@.skip(i as int + 1));
            assert(bb@.skip(i as int).drop_first() =~= bb@.skip(i as int + 1));
        }
        i = i + 1;
    }
    proof {
        if i == ab@.len() {
            assert(ab@.skip(i as int).len() == 0);
        } else {
            assert(bb@.skip(i as int).len() == 0);
            assert(ab@.skip(i as int).len() > 0);
        }
    }
    i == ab.len()
}

/// The decorated name an entry is listed under.
fn decorated_name(entry: &FileEntry) -> (s: String)
    ensures
        s@ == spec_decorated(entry.name@, entry.is_dir),
{
    let mut s = entry.name.clone();
    if entry.is_dir {
        s.append("/");
    }
    s
}

proof fn lemma_insert_sorted_position(x: Seq<char>, s: Seq<Seq<char>>, idx: int)
    requires
        0 <= idx <= s.len(),
        forall|j: int| 0 <= j < idx ==> spec_str_le(#[trigger] s[j], x),
        idx < s.len() ==> !spec_str_le(s[idx], x),
    ensures
        spec_insert_sorted(x, s) =~= s.take(idx) + seq![x] + s.skip(idx),
    decreases idx,
{
    if idx == 0 {
        if s.len() == 0 {
            assert(s.take(0) + seq![x] + s.skip(0) =~= seq![x]);
        } else {
            assert(!spec_str_le(s.first(), x));
            assert(s.take(0) + seq![x] + s.skip(0) =~= seq![x] + s);
        }
    } else {
        assert(spec_str_le(s[0], x));
        lemma_insert_sorted_position(x, s.drop_first(), idx - 1);
        assert(spec_insert_sorted(x, s) == seq![s.first()] + spec_insert_sorted(
            x,
            s.drop_first(),
        ));
        assert(seq![s.first()] + (s.drop_first().take(idx - 1) + seq![x] + s.drop_first().skip(
            idx - 1,
        )) =~= s.take(idx) + seq![x] + s.skip(idx));
    }
}

/// Inserts a name into an already built prefix of the listing, keeping the
/// stable insertion order.
fn insert_sorted(out: &mut Vec<String>, x: String)
    ensures
        views_of(final(out)@) =~= spec_insert_sorted(x@, views_of(old(out)@)),
{
    let mut j: usize = 0;
    while j < out.len() && str_le(out[j].as_str(), x.as_str())
        invariant
            j <= out@.len(),
            *out == *old(out),
            forall|t: int| 0 <= t < j ==> spec_str_le(#[trigger] views_of(out@)[t], x@),
        decreases out@.len() - j,
    {
        j = j + 1;
    }
    proof {
        lemma_insert_sorted_position(x@, views_of(out@), j as int);
    }
    let ghost before = out@;
    out.insert(j, x);
    proof {
        assert(views_of(out@) =~= views_of(before).take(j as int) + seq![x@] + views_of(
            before,
        ).skip(j as int));
    }
}

/// Sorts the decorated names.
fn sort_names(v: &Vec<String>) -> (r: Vec<String>)
    ensures
        views_of(r@) =~= spec_sort_names(views_of(v@)),
{
    let mut out: Vec<String> = Vec::new();
    let mut i: usize = 0;
    while i < v.len()
        invariant
            i <= v@.len(),
            views_of(out@) =~= spec_sort_names(views_of(v@.take(i as int))),
        decreases v@.len() - i,
    {
        let x = v[i].clone();
        proof {
            assert(x@ == v@[i as int]@);
        }
        insert_sorted(&mut out, x);
        proof {
            assert(views_of(v@.take(i as int + 1)).drop_last() =~= views_of(v@.take(i as int)));
            assert(views_of(v@.take(i as int + 1)).last() == v@[i as int]@);
            assert(views_of(v@.take(i as int + 1)).len() > 0);
        }
        i = i + 1;
    }
    proof {
        assert(v@.take(v@.len() as int) =~= v@);
    }
    out
}

proof fn lemma_join_comma_push(parts: Seq<Seq<char>>, x: Seq<char>)
    ensures
        spec_join_comma(parts.push(x)) =~= if parts.len() == 0 {
            x
        } else {
            spec_join_comma(parts) + ", "@ + x
        },
    decreases parts.len(),
{
    if parts.len() == 0 {
        assert(parts.push(x).len() == 1);
        assert(parts.push(x).first() == x);
    } else {
        assert(parts.push(x).drop_first() =~= parts.drop_first().push(x));
        assert(parts.push(x).first() == parts.first());
        lemma_join_comma_push(parts.drop_first(), x);
        if parts.len() == 1 {
            assert(spec_join_comma(parts.push(x)) =~= parts.first() + ", "@ + x);
        } else {
            assert(spec_join_comma(parts.push(x)) =~= parts.first() + ", "@ + (spec_join_comma(
                parts.drop_first(),
            ) + ", "@ + x));
            assert(parts.first() + ", "@ + (spec_join_comma(parts.drop_first()) + ", "@ + x) =~= (
            parts.first() + ", "@ + spec_join_comma(parts.drop_first())) + ", "@ + x);
        }
    }
}

/// Joins the sorted names with `, ` between them.
fn join_comma(parts: &Vec<String>) -> (s: String)
    ensures
        s@ =~= spec_join_comma(views_of(parts@)),
{
    let mut s = String::new();
    let mut i: usize = 0;
    while i < parts.len()
        invariant
            i <= parts@.len(),
            s@ =~= spec_join_comma(views_of(parts@.take(i as int))),
        decreases parts@.len() - i,
    {
        if i > 0 {
            s.append(", ");
        }
        s.append(parts[i].as_str());
        proof {
            lemma_join_comma_push(views_of(parts@.take(i as int)), parts@[i as int]@);
            assert(views_of(parts@.take(i as int + 1)) =~= views_of(parts@.take(i as int)).push(
                parts@[i as int]@,
            ));
            assert(views_of(parts@.take(i as int)).len() == i);
        }
        i = i + 1;
    }
    proof {
        assert(parts@.take(parts@.len() as int) =~= parts@);
    }
    s
}

/// Builds the file listing for the current working directory's entries:
/// each directory name suffixed with a separator, the whole sorted
/// byte-lexicographically and joined with commas, exactly as it is appended
/// to an augmented query.
pub fn format_file_listing(entries: &Vec<FileEntry>) -> (s: String)
    ensures
        s@ =~= spec_file_listing(entries@.map_values(|e: FileEntry| e@)),
{
    let mut decorated: Vec<String> = Vec::new();
    let mut i: usize = 0;
    while i < entries.len()
        invariant
            i <= entries@.len(),
            decorated@.len() == i,
            forall|t: int| #![trigger decorated@[t]] 0 <= t < i ==> decorated@[t]@
                == spec_decorated(entries@[t].name@, entries@[t].is_dir),
        decreases entries@.len() - i,
    {
        let d = decorated_name(&entries[i]);
        decorated.push(d);
        i = i + 1;
    }
    proof {
        let evs = entries@.map_values(|e: FileEntry| e@);
        let dvs = evs.map_values(|e: (Seq<char>, bool)| spec_decorated(e.0, e.1));
        assert forall|t: int| 0 <= t < entries@.len() implies #[trigger] dvs[t] == views_of(
            decorated@,
        )[t] by {
            assert(evs[t] == entries@[t]@);
            assert(dvs[t] == spec_decorated(entries@[t].name@, entries@[t].is_dir));
        }
        assert(views_of(decorated@) =~= dvs);
    }
    let sorted = sort_names(&decorated);
    join_comma(&sorted)
}

} // verus!
