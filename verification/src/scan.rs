//! Building the library listing.  The shell walks the directory tree and
//! hands over one entry per regular file it could read; this module keeps
//! exactly the entries whose file name carries a recognized audio extension
//! and sorts them by display name in ordinal order.

use crate::order::{lemma_name_le_total, lemma_name_le_trans, name_le, str_le};
use crate::track::{FileView, MusicFile};
use vstd::prelude::*;

verus! {

/// Index of the last `'.'` in `name`, if any.
pub open spec fn last_dot(name: Seq<char>) -> Option<int>
    decreases name.len(),
{
    if name.len() == 0 {
        None
    } else if name.last() == '.' {
        Some(name.len() - 1)
    } else {
        last_dot(name.drop_last())
    }
}

/// ASCII lower-casing of one scalar value.
pub open spec fn lower_u32(c: u32) -> u32 {
    if 65 <= c && c <= 90 {
        (c + 32) as u32
    } else {
        c
    }
}

/// The scalar value of `e[i]`, lower-cased.
pub open spec fn low(e: Seq<char>, i: int) -> u32 {
    lower_u32(e[i] as u32)
}

/// `e` matches the three-letter extension `abc`, ignoring ASCII case.
pub open spec fn ext3(e: Seq<char>, a: char, b: char, c: char) -> bool {
    e.len() == 3 && low(e, 0) == a as u32 && low(e, 1) == b as u32 && low(e, 2) == c as u32
}

/// The fixed set of recognized audio extensions, matched ignoring ASCII
/// case: mp3, wav, flac, ogg, m4a, aac.
pub open spec fn is_music_ext(e: Seq<char>) -> bool {
    ||| ext3(e, 'm', 'p', '3')
    ||| ext3(e, 'w', 'a', 'v')
    ||| ext3(e, 'o', 'g', 'g')
    ||| ext3(e, 'm', '4', 'a')
    ||| ext3(e, 'a', 'a', 'c')
    ||| (e.len() == 4 && low(e, 0) == 'f' as u32 && low(e, 1) == 'l' as u32 && low(e, 2) == 'a'
        as u32 && low(e, 3) == 'c' as u32)
}

/// A display name is kept when the part after its last dot is a recognized
/// extension.  The stem before the dot must be non-empty, so a leading-dot
/// name such as `.mp3` has no extension at all.
pub open spec fn recognized(name: Seq<char>) -> bool {
    match last_dot(name) {
        Some(k) => k > 0 && is_music_ext(name.subrange(k + 1, name.len() as int)),
        None => false,
    }
}

/// The views of a sequence of files.
pub open spec fn views_of(s: Seq<MusicFile>) -> Seq<FileView> {
    s.map_values(|f: MusicFile| f@)
}

/// The subsequence of views whose names are recognized.
pub open spec fn recognized_views(s: Seq<FileView>) -> Seq<FileView> {
    s.filter(|v: FileView| recognized(v.name))
}

/// Sorted by display name under the ordinal order.
pub open spec fn sorted_by_name(s: Seq<FileView>) -> bool {
    forall|i: int, j: int| 0 <= i < j < s.len() ==> name_le(s[i].name, s[j].name)
}

/// ASCII lower-casing of one character's scalar value.
fn lower_code(c: char) -> (r: u32)
    ensures
        r == lower_u32(c as u32),
{
    let code = c as u32;
    if 65 <= code && code <= 90 {
        code + 32
    } else {
        code
    }
}

/// Decides `recognized` for one display name.
pub fn has_music_extension(name: &str) -> (r: bool)
    ensures
        r == recognized(name@),
{
    let n = name.unicode_len();
    let mut i: usize = n;
    proof {
        assert(name@.take(n as int) =~= name@);
    }
    loop
        invariant_except_break
            i <= n,
            n == name@.len(),
            last_dot(name@) == last_dot(name@.take(i as int)),
        ensures
            1 <= i <= n,
            n == name@.len(),
            last_dot(name@) == Some(i - 1 as int),
        decreases i,
    {
        if i == 0 {
            proof {
                assert(name@.take(0).len() == 0);
            }
            return false;
        }
        let c = name.get_char(i - 1);
        proof {
            assert(name@.take(i as int).last() == name@[i as int - 1]);
        }
        if c == '.' {
            break;
        }
        proof {
            assert(name@.take(i as int).drop_last() =~= name@.take(i as int - 1));
        }
        i = i - 1;
    }
    if i == 1 {
        // The dot is the first character: empty stem, no extension.
        return false;
    }
    let elen = n - i;
    let ghost e = name@.subrange(i as int, n as int);
    if elen == 3 {
        let c0 = lower_code(name.get_char(i));
        let c1 = lower_code(name.get_char(i + 1));
        let c2 = lower_code(name.get_char(i + 2));
        proof {
            assert(e[0] == name@[i as int]);
            assert(e[1] == name@[i as int + 1]);
            assert(e[2] == name@[i as int + 2]);
        }
        ((c0 == 'm' as u32 && c1 == 'p' as u32 && c2 == '3' as u32) || (c0 == 'w' as u32 && c1
            == 'a' as u32 && c2 == 'v' as u32) || (c0 == 'o' as u32 && c1 == 'g' as u32 && c2
            == 'g' as u32) || (c0 == 'm' as u32 && c1 == '4' as u32 && c2 == 'a' as u32) || (c0
            == 'a' as u32 && c1 == 'a' as u32 && c2 == 'c' as u32))
    } else if elen == 4 {
        let c0 = lower_code(name.get_char(i));
        let c1 = lower_code(name.get_char(i + 1));
        let c2 = lower_code(name.get_char(i + 2));
        let c3 = lower_code(name.get_char(i + 3));
        proof {
            assert(e[0] == name@[i as int]);
            assert(e[1] == name@[i as int + 1]);
            assert(e[2] == name@[i as int + 2]);
            assert(e[3] == name@[i as int + 3]);
        }
        (c0 == 'f' as u32 && c1 == 'l' as u32 && c2 == 'a' as u32 && c3 == 'c' as u32)
    } else {
        false
    }
}

/// Inserts `f` into a listing that is sorted by name, keeping it sorted.
fn insert_sorted(out: &mut Vec<MusicFile>, f: MusicFile)
    requires
        sorted_by_name(views_of(old(out)@)),
    ensures
        sorted_by_name(views_of(final(out)@)),
        views_of(final(out)@).to_multiset() == views_of(old(out)@).to_multiset().insert(f@),
{
    let mut p: usize = 0;
    while p < out.len() && str_le(out[p].name.as_str(), f.name.as_str())
        invariant
            p <= out.len(),
            *out == *old(out),
            forall|k: int| 0 <= k < p ==> name_le(views_of(out@)[k].name, f@.name),
        decreases out.len() - p,
    {
        proof {
            assert(views_of(out@)[p as int].name == out@[p as int].name@);
        }
        p = p + 1;
    }
    proof {
        let vs = views_of(out@);
        if p < out@.len() {
            assert(vs[p as int].name == out@[p as int].name@);
            lemma_name_le_total(out@[p as int].name@, f@.name);
            assert(name_le(f@.name, vs[p as int].name));
        }
        assert forall|k: int| p <= k < vs.len() implies name_le(f@.name, vs[k].name) by {
            if p < k {
                lemma_name_le_trans(f@.name, vs[p as int].name, vs[k].name);
            }
        }
    }
    let ghost pre = out@;
    out.insert(p, f);
    proof {
        let vs = views_of(pre);
        let ws = views_of(out@);
        assert(ws =~= vs.insert(p as int, f@));
        vstd::seq_lib::to_multiset_insert(vs, p as int, f@);
        assert forall|i: int, j: int| 0 <= i < j < ws.len() implies name_le(
            ws[i].name,
            ws[j].name,
        ) by {
            if j < p {
                assert(ws[i] == vs[i] && ws[j] == vs[j]);
            } else if j == p {
                assert(ws[j] == f@);
                if i < p {
                    assert(ws[i] == vs[i]);
                }
            } else {
                assert(ws[j] == vs[j - 1]);
                if i < p {
                    assert(ws[i] == vs[i]);
                } else if i == p {
                    assert(ws[i] == f@);
                } else {
                    assert(ws[i] == vs[i - 1]);
                }
            }
        }
    }
}

/// Builds the library from the raw directory entries: keeps exactly the
/// entries with a recognized audio extension, sorted by display name.
pub fn scan_music_files(entries: Vec<MusicFile>) -> (lib: Vec<MusicFile>)
    ensures
        sorted_by_name(views_of(lib@)),
        views_of(lib@).to_multiset() == recognized_views(views_of(entries@)).to_multiset(),
{
    let mut out: Vec<MusicFile> = Vec::new();
    let mut idx: usize = 0;
    proof {
        assert(views_of(entries@.take(0)) =~= Seq::<FileView>::empty());
        assert(recognized_views(Seq::<FileView>::empty()) =~= Seq::<FileView>::empty()) by {
            reveal(Seq::filter);
        }
        assert(views_of(out@) =~= Seq::<FileView>::empty());
    }
    while idx < entries.len()
        invariant
            idx <= entries.len(),
            sorted_by_name(views_of(out@)),
            views_of(out@).to_multiset() == recognized_views(
                views_of(entries@.take(idx as int)),
            ).to_multiset(),
        decreases entries.len() - idx,
    {
        let keep = has_music_extension(entries[idx].name.as_str());
        proof {
            let prefix = views_of(entries@.take(idx as int));
            let next = views_of(entries@.take(idx as int + 1));
            let v = entries@[idx as int]@;
            assert(next =~= prefix.push(v));
            assert(prefix.push(v).drop_last() =~= prefix);
            reveal(Seq::filter);
            assert(recognized_views(next) == if recognized(v.name) {
                recognized_views(prefix).push(v)
            } else {
                recognized_views(prefix)
            });
            if recognized(v.name) {
                vstd::seq_lib::to_multiset_build(recognized_views(prefix), v);
            }
        }
        if keep {
            insert_sorted(&mut out, entries[idx].clone());
        }
        idx = idx + 1;
    }
    proof {
        assert(entries@.take(entries@.len() as int) =~= entries@);
    }
    out
}

} // verus!
