//! Construction of the Kubernetes `Secret` manifest text.
//!
//! The manifest is built from a name, a namespace and a sequence of
//! key/value entries. It is a pure function of those inputs: the header
//! names the secret and marks it opaque, and when entries are present a
//! `stringData:` section follows, one literal block per entry, each
//! value carried verbatim.

use vstd::prelude::*;

verus! {

/// The entries of a key/value list, viewed as character sequences.
pub open spec fn entries_view(data: Seq<(String, String)>) -> Seq<(Seq<char>, Seq<char>)> {
    data.map_values(|p: (String, String)| (p.0@, p.1@))
}

/// The header block: API version, kind, metadata with name and
/// namespace, and the opaque type marker.
pub open spec fn manifest_header(name: Seq<char>, namespace: Seq<char>) -> Seq<char> {
    "apiVersion: v1\nkind: Secret\nmetadata:\n  name: "@ + name + "\n  namespace: "@ + namespace
        + "\ntype: Opaque"@
}

/// One rendered entry: the key introduces a literal block that carries
/// the value verbatim.
pub open spec fn entry_text(key: Seq<char>, value: Seq<char>) -> Seq<char> {
    "  "@ + key + ": |-\n    "@ + value
}

/// The rendered entries joined by single newlines.
pub open spec fn entries_text(entries: Seq<(Seq<char>, Seq<char>)>) -> Seq<char>
    decreases entries.len(),
{
    if entries.len() == 0 {
        Seq::<char>::empty()
    } else if entries.len() == 1 {
        entry_text(entries[0].0, entries[0].1)
    } else {
        entries_text(entries.drop_last()) + "\n"@ + entry_text(
            entries.last().0,
            entries.last().1,
        )
    }
}

/// The whole manifest: the header alone when there are no entries,
/// otherwise the header followed by the `stringData:` section.
pub open spec fn manifest_text(
    name: Seq<char>,
    namespace: Seq<char>,
    entries: Seq<(Seq<char>, Seq<char>)>,
) -> Seq<char> {
    if entries.len() == 0 {
        manifest_header(name, namespace)
    } else {
        manifest_header(name, namespace) + "\nstringData:\n"@ + entries_text(entries)
    }
}

/// Manifest construction is deterministic: identical inputs always yield
/// identical manifest text. The builder below is pure — its result is
/// pinned to `manifest_text` of its arguments — so two calls on equal
/// inputs return byte-identical documents.
pub proof fn lemma_manifest_deterministic(
    name1: Seq<char>,
    namespace1: Seq<char>,
    entries1: Seq<(Seq<char>, Seq<char>)>,
    name2: Seq<char>,
    namespace2: Seq<char>,
    entries2: Seq<(Seq<char>, Seq<char>)>,
)
    requires
        name1 == name2,
        namespace1 == namespace2,
        entries1 == entries2,
    ensures
        manifest_text(name1, namespace1, entries1) == manifest_text(name2, namespace2, entries2),
{
}

/// With no entries the manifest is exactly the header block: the
/// document carries no content section, and is still a complete
/// document.
pub proof fn lemma_empty_data_manifest(name: Seq<char>, namespace: Seq<char>)
    ensures
        manifest_text(name, namespace, Seq::<(Seq<char>, Seq<char>)>::empty()) == manifest_header(
            name,
            namespace,
        ),
{
}

proof fn lemma_subrange_in_concat_left(a: Seq<char>, b: Seq<char>, off: int, n: int)
    requires
        0 <= off,
        0 <= n,
        off + n <= a.len(),
    ensures
        (a + b).subrange(off, off + n) == a.subrange(off, off + n),
{
    assert((a + b).subrange(off, off + n) =~= a.subrange(off, off + n));
}

proof fn lemma_subrange_in_concat_right(a: Seq<char>, b: Seq<char>, off: int, n: int)
    requires
        0 <= off,
        0 <= n,
        off + n <= b.len(),
    ensures
        (a + b).subrange(a.len() + off, a.len() + off + n) == b.subrange(off, off + n),
{
    assert((a + b).subrange(a.len() + off, a.len() + off + n) =~= b.subrange(off, off + n));
}

proof fn lemma_entry_text_holds_value(key: Seq<char>, value: Seq<char>)
    ensures
        entry_text(key, value).subrange(
            entry_text(key, value).len() - value.len(),
            entry_text(key, value).len() as int,
        ) == value,
{
    let a = "  "@ + key + ": |-\n    "@;
    lemma_subrange_in_concat_right(a, value, 0, value.len() as int);
    assert(value.subrange(0, value.len() as int) =~= value);
}

proof fn lemma_entries_value_verbatim(entries: Seq<(Seq<char>, Seq<char>)>, i: int)
    requires
        0 <= i < entries.len(),
    ensures
        exists|off: int|
            0 <= off && off + entries[i].1.len() <= entries_text(entries).len()
                && #[trigger] entries_text(entries).subrange(off, off + entries[i].1.len())
                == entries[i].1,
    decreases entries.len(),
{
    let t = entries_text(entries);
    let v = entries[i].1;
    let n = v.len() as int;
    if entries.len() == 1 {
        lemma_entry_text_holds_value(entries[0].0, entries[0].1);
        let off = t.len() - n;
        assert(0 <= off && off + n <= t.len() && t.subrange(off, off + n) == v);
    } else if i == entries.len() - 1 {
        let a2 = entries_text(entries.drop_last()) + "\n"@;
        let e = entry_text(entries.last().0, entries.last().1);
        lemma_entry_text_holds_value(entries.last().0, entries.last().1);
        lemma_subrange_in_concat_right(a2, e, e.len() - n, n);
        let off = a2.len() + e.len() - n;
        assert(t.subrange(off, off + n) == e.subrange(e.len() - n, e.len() - n + n));
        assert(e.subrange(e.len() - n, e.len() as int) == v);
        assert(0 <= off && off + n <= t.len() && t.subrange(off, off + n) == v);
    } else {
        lemma_entries_value_verbatim(entries.drop_last(), i);
        let p0 = entries_text(entries.drop_last());
        assert(entries.drop_last()[i] == entries[i]);
        let off = choose|off: int|
            0 <= off && off + entries.drop_last()[i].1.len() <= p0.len() && #[trigger] p0.subrange(
                off,
                off + entries.drop_last()[i].1.len(),
            ) == entries.drop_last()[i].1;
        let a2 = p0 + "\n"@;
        let e = entry_text(entries.last().0, entries.last().1);
        lemma_subrange_in_concat_left(a2, e, off, n);
        lemma_subrange_in_concat_left(p0, "\n"@, off, n);
        assert(t.subrange(off, off + n) == p0.subrange(off, off + n));
        assert(0 <= off && off + n <= t.len() && t.subrange(off, off + n) == v);
    }
}

/// Every value is preserved verbatim: whatever it holds — embedded
/// newlines included — it appears unchanged as a contiguous run of the
/// rendered manifest.
pub proof fn lemma_value_verbatim(
    name: Seq<char>,
    namespace: Seq<char>,
    entries: Seq<(Seq<char>, Seq<char>)>,
    i: int,
)
    requires
        0 <= i < entries.len(),
    ensures
        exists|off: int|
            0 <= off && off + entries[i].1.len() <= manifest_text(name, namespace, entries).len()
                && #[trigger] manifest_text(name, namespace, entries).subrange(
                off,
                off + entries[i].1.len(),
            ) == entries[i].1,
{
    lemma_entries_value_verbatim(entries, i);
    let t = manifest_text(name, namespace, entries);
    let body = entries_text(entries);
    let head = manifest_header(name, namespace) + "\nstringData:\n"@;
    let v = entries[i].1;
    let n = v.len() as int;
    let off0 = choose|off: int|
        0 <= off && off + v.len() <= body.len() && #[trigger] body.subrange(off, off + v.len())
            == v;
    let off = head.len() + off0;
    assert(t == head + body);
    lemma_subrange_in_concat_right(head, body, off0, n);
    assert(t.subrange(off, off + n) == body.subrange(off0, off0 + n));
    assert(0 <= off && off + n <= t.len() && t.subrange(off, off + n) == v);
}

/// Builds the manifest text for the given name, namespace and data
/// entries. Pure: the result is a function of the arguments alone.
pub fn construct_secret_manifest(name: &str, namespace: &str, data: &Vec<(String, String)>) -> (r:
    String)
    ensures
        r@ == manifest_text(name@, namespace@, entries_view(data@)),
{
    let ghost entries = entries_view(data@);
    let mut out = String::from_str("apiVersion: v1\nkind: Secret\nmetadata:\n  name: ");
    out.append(name);
    out.append("\n  namespace: ");
    out.append(namespace);
    out.append("\ntype: Opaque");
    assert(out@ == manifest_header(name@, namespace@));
    if data.len() > 0 {
        out.append("\nstringData:\n");
        let mut i: usize = 0;
        while i < data.len()
            invariant
                entries == entries_view(data@),
                entries.len() == data@.len(),
                0 <= i <= data@.len(),
                out@ == manifest_header(name@, namespace@) + "\nstringData:\n"@ + entries_text(
                    entries.take(i as int),
                ),
            decreases data@.len() - i,
        {
            if i > 0 {
                out.append("\n");
            }
            out.append("  ");
            out.append(data[i].0.as_str());
            out.append(": |-\n    ");
            out.append(data[i].1.as_str());
            proof {
                let prev = entries.take(i as int);
                let cur = entries.take(i as int + 1);
                assert(entries[i as int] == (data@[i as int].0@, data@[i as int].1@));
                assert(cur.drop_last() =~= prev);
                assert(cur.last() == entries[i as int]);
                if i == 0 {
                    assert(entries_text(cur) == entry_text(entries[0].0, entries[0].1));
                } else {
                    assert(entries_text(cur) == entries_text(prev) + "\n"@ + entry_text(
                        entries[i as int].0,
                        entries[i as int].1,
                    ));
                }
            }
            i += 1;
        }
        proof {
            assert(entries.take(data@.len() as int) =~= entries);
        }
    }
    out
}

} // verus!
