//! Stock-photo manifest: the image files of a local photo directory,
//! referenced by name from the CMS. Given the directory's file names,
//! [`stock_photo_entries`] keeps the images (jpg, jpeg, png, webp, avif),
//! skips hidden and other files, folds each `name@2x.ext` into the entry
//! of `name` as its 2x variant, and returns the entries sorted by name.

use vstd::prelude::*;
use crate::text::{
    chars_eq, chars_lt, chars_of, opt_string_view, owned, push_str, seq_lt, seq_lt_asymmetric,
    seq_lt_irreflexive, seq_lt_total, seq_lt_transitive, string_from_range, str_eq, str_lt,
    strings_view,
};

verus! {

/// One photo entry in the manifest.
#[derive(Debug, Clone, PartialEq, Eq)]
pub struct StockPhotoEntry {
    /// File basename without extension; the CMS refers to the photo by it.
    pub name: String,
    /// Resource URL: the web prefix, `/`, the file name.
    pub src: String,
    /// URL of the 2x density variant (`name@2x.ext`), if present.
    pub src_2x: Option<String>,
    /// MIME type derived from the extension.
    pub mime: String,
    /// Attribution text; empty for owner-supplied photos.
    pub attribution: String,
}

/// What one directory entry contributes to the manifest.
pub enum PhotoKind {
    /// Hidden, extensionless or not an image.
    Skip,
    /// An image named by its stem.
    Base {
        /// File stem.
        stem: Seq<char>,
        /// Resource URL.
        src: Seq<char>,
        /// MIME type.
        mime: Seq<char>,
    },
    /// The 2x variant of the image whose stem is `base`.
    Double {
        /// Stem of the 1x image.
        base: Seq<char>,
        /// Resource URL.
        src: Seq<char>,
    },
}

/// Index of the last `.` in `s`.
pub open spec fn last_dot(s: Seq<char>) -> Option<int>
    decreases s.len(),
{
    if s.len() == 0 {
        None
    } else if s.last() == '.' {
        Some(s.len() - 1)
    } else {
        last_dot(s.drop_last())
    }
}

/// ASCII lower-casing of one character.
pub open spec fn lower_char(c: char) -> char {
    if 'A' <= c <= 'Z' {
        ((c as u32) + 32) as char
    } else {
        c
    }
}

/// ASCII lower-casing of a string.
pub open spec fn lower(s: Seq<char>) -> Seq<char> {
    s.map_values(|c: char| lower_char(c))
}

/// The MIME type of a lower-cased extension, for the image formats.
pub open spec fn mime_of(ext: Seq<char>) -> Option<Seq<char>> {
    if ext == seq!['j', 'p', 'g'] || ext == seq!['j', 'p', 'e', 'g'] {
        Some("image/jpeg"@)
    } else if ext == seq!['p', 'n', 'g'] {
        Some("image/png"@)
    } else if ext == seq!['w', 'e', 'b', 'p'] {
        Some("image/webp"@)
    } else if ext == seq!['a', 'v', 'i', 'f'] {
        Some("image/avif"@)
    } else {
        None
    }
}

/// The image formats kept are JPEG (`jpg` or `jpeg`), PNG, WebP and AVIF,
/// and each gets the IANA type `image/` followed by its extension, `jpg`
/// written out as `jpeg`.
pub proof fn image_types_follow_the_extension(ext: Seq<char>)
    ensures
        mime_of(ext) is Some <==> (ext == seq!['j', 'p', 'g'] || ext == seq!['j', 'p', 'e', 'g']
            || ext == seq!['p', 'n', 'g'] || ext == seq!['w', 'e', 'b', 'p'] || ext == seq![
            'a',
            'v',
            'i',
            'f',
        ]),
        mime_of(ext) is Some ==> mime_of(ext)->0 == seq!['i', 'm', 'a', 'g', 'e', '/'] + (if ext
            == seq!['j', 'p', 'g'] {
            seq!['j', 'p', 'e', 'g']
        } else {
            ext
        }),
{
    reveal_strlit("image/jpeg");
    reveal_strlit("image/png");
    reveal_strlit("image/webp");
    reveal_strlit("image/avif");
    let image = seq!['i', 'm', 'a', 'g', 'e', '/'];
    assert("image/jpeg"@ =~= image + seq!['j', 'p', 'e', 'g']);
    assert("image/png"@ =~= image + seq!['p', 'n', 'g']);
    assert("image/webp"@ =~= image + seq!['w', 'e', 'b', 'p']);
    assert("image/avif"@ =~= image + seq!['a', 'v', 'i', 'f']);
}

/// The `@2x` suffix of a double-density variant's stem.
pub open spec fn at2x() -> Seq<char> {
    seq!['@', '2', 'x']
}

/// An image file with stem `stem`: the variant of the shorter stem when
/// `stem` ends in `@2x`, the 1x image otherwise.
pub open spec fn stem_kind(stem: Seq<char>, src: Seq<char>, mime: Seq<char>) -> PhotoKind {
    if stem.len() >= 3 && stem.skip(stem.len() - 3) == at2x() {
        PhotoKind::Double { base: stem.take(stem.len() - 3), src }
    } else {
        PhotoKind::Base { stem, src, mime }
    }
}

/// How a file name is classified: hidden names and names without an
/// image extension are skipped; the stem is the name before its last
/// `.`, the extension after it (compared ASCII-case-insensitively).
pub open spec fn photo_kind(name: Seq<char>, prefix: Seq<char>) -> PhotoKind {
    if name.len() == 0 || name[0] == '.' {
        PhotoKind::Skip
    } else {
        match last_dot(name) {
            None => PhotoKind::Skip,
            Some(d) => match mime_of(lower(name.skip(d + 1))) {
                None => PhotoKind::Skip,
                Some(mime) => stem_kind(name.take(d), prefix + "/"@ + name, mime),
            },
        }
    }
}

/// `(stem, (src, mime))` of every image, in directory order.
pub open spec fn base_photos(files: Seq<Seq<char>>, prefix: Seq<char>) -> Seq<
    (Seq<char>, (Seq<char>, Seq<char>)),
>
    decreases files.len(),
{
    if files.len() == 0 {
        Seq::empty()
    } else {
        let rest = base_photos(files.drop_last(), prefix);
        match photo_kind(files.last(), prefix) {
            PhotoKind::Base { stem, src, mime } => rest.push((stem, (src, mime))),
            _ => rest,
        }
    }
}

/// `(base, src)` of every 2x variant, in directory order.
pub open spec fn double_photos(files: Seq<Seq<char>>, prefix: Seq<char>) -> Seq<(Seq<char>, Seq<char>)>
    decreases files.len(),
{
    if files.len() == 0 {
        Seq::empty()
    } else {
        let rest = double_photos(files.drop_last(), prefix);
        match photo_kind(files.last(), prefix) {
            PhotoKind::Double { base, src } => rest.push((base, src)),
            _ => rest,
        }
    }
}

/// The value of the last pair for `k`: a later file with the same stem
/// replaces an earlier one.
pub open spec fn last_value<V>(t: Seq<(Seq<char>, V)>, k: Seq<char>) -> Option<V>
    decreases t.len(),
{
    if t.len() == 0 {
        None
    } else if t.last().0 == k {
        Some(t.last().1)
    } else {
        last_value(t.drop_last(), k)
    }
}


/// `entries` is the manifest of `files`: strictly sorted by name, one
/// entry for every image stem and no other, each carrying the URL and
/// MIME type of the last image with that stem, the URL of the last 2x
/// variant of that stem, and an empty attribution.
pub open spec fn is_manifest_of(entries: Seq<StockPhotoEntry>, files: Seq<Seq<char>>, prefix: Seq<char>) -> bool {
    let bases = base_photos(files, prefix);
    let doubles = double_photos(files, prefix);
    &&& forall|i: int, j: int|
        0 <= i < j < entries.len() ==> seq_lt(#[trigger] entries[i].name@, #[trigger] entries[j].name@)
    &&& forall|i: int|
        0 <= i < entries.len() ==> {
            &&& last_value(bases, #[trigger] entries[i].name@) == Some((entries[i].src@, entries[i].mime@))
            &&& opt_string_view(entries[i].src_2x) == last_value(doubles, entries[i].name@)
            &&& entries[i].attribution@ == Seq::<char>::empty()
        }
    &&& forall|stem: Seq<char>|
        #[trigger] last_value(bases, stem) is Some ==> exists|i: int|
            0 <= i < entries.len() && entries[i].name@ == stem
}

/// A classified file, as computed.
enum PhotoFile {
    Skip,
    Base(String, String, &'static str),
    Double(String, String),
}

impl PhotoFile {
    spec fn kind(self) -> PhotoKind {
        match self {
            PhotoFile::Skip => PhotoKind::Skip,
            PhotoFile::Base(stem, src, mime) => PhotoKind::Base { stem: stem@, src: src@, mime: mime@ },
            PhotoFile::Double(base, src) => PhotoKind::Double { base: base@, src: src@ },
        }
    }
}

fn lower_char_exec(c: char) -> (r: char)
    ensures
        r == lower_char(c),
{
    if 'A' <= c && c <= 'Z' {
        ((c as u8) + 32) as char
    } else {
        c
    }
}

fn mime_for(v: &Vec<char>, from: usize) -> (r: Option<&'static str>)
    requires
        from <= v@.len(),
    ensures
        match r {
            Some(m) => mime_of(lower(v@.skip(from as int))) == Some(m@),
            None => mime_of(lower(v@.skip(from as int))) is None,
        },
{
    let mut ext: Vec<char> = Vec::new();
    let mut i = from;
    while i < v.len()
        invariant
            from <= i <= v@.len(),
            ext@ == lower(v@.subrange(from as int, i as int)),
        decreases v.len() - i,
    {
        ext.push(lower_char_exec(v[i]));
        assert(lower(v@.subrange(from as int, i + 1)) =~= lower(v@.subrange(from as int, i as int)).push(
            lower_char(v@[i as int]),
        ));
        i = i + 1;
    }
    assert(v@.subrange(from as int, i as int) =~= v@.skip(from as int));
    let jpg: Vec<char> = vec!['j', 'p', 'g'];
    let jpeg: Vec<char> = vec!['j', 'p', 'e', 'g'];
    let png: Vec<char> = vec!['p', 'n', 'g'];
    let webp: Vec<char> = vec!['w', 'e', 'b', 'p'];
    let avif: Vec<char> = vec!['a', 'v', 'i', 'f'];
    if chars_eq(&ext, &jpg) || chars_eq(&ext, &jpeg) {
        Some("image/jpeg")
    } else if chars_eq(&ext, &png) {
        Some("image/png")
    } else if chars_eq(&ext, &webp) {
        Some("image/webp")
    } else if chars_eq(&ext, &avif) {
        Some("image/avif")
    } else {
        None
    }
}

fn find_last_dot(v: &Vec<char>) -> (r: Option<usize>)
    ensures
        match r {
            Some(d) => d < v@.len() && last_dot(v@) == Some(d as int),
            None => last_dot(v@) is None,
        },
{
    let mut d = v.len();
    assert(v@.take(d as int) =~= v@);
    while d > 0 && v[d - 1] != '.'
        invariant
            d <= v@.len(),
            last_dot(v@) == last_dot(v@.take(d as int)),
        decreases d,
    {
        assert(v@.take(d - 1) =~= v@.take(d as int).drop_last());
        d = d - 1;
    }
    if d == 0 {
        None
    } else {
        assert(v@.take(d as int).last() == '.');
        Some(d - 1)
    }
}

fn make_kind(v: &Vec<char>, dot: usize, src: String, mime: &'static str) -> (r: PhotoFile)
    requires
        dot <= v@.len(),
    ensures
        r.kind() == stem_kind(v@.take(dot as int), src@, mime@),
{
    let ghost stem = v@.take(dot as int);
    if dot >= 3 && v[dot - 3] == '@' && v[dot - 2] == '2' && v[dot - 1] == 'x' {
        assert(stem.skip(stem.len() - 3) =~= at2x());
        let base = string_from_range(v, 0, dot - 3);
        assert(v@.subrange(0, dot - 3) =~= stem.take(stem.len() - 3));
        PhotoFile::Double(base, src)
    } else {
        proof {
            if stem.len() >= 3 && stem.skip(stem.len() - 3) == at2x() {
                assert(stem.skip(stem.len() - 3)[0] == v@[dot - 3]);
                assert(stem.skip(stem.len() - 3)[1] == v@[dot - 2]);
                assert(stem.skip(stem.len() - 3)[2] == v@[dot - 1]);
            }
        }
        let stem_s = string_from_range(v, 0, dot);
        assert(v@.subrange(0, dot as int) =~= stem);
        PhotoFile::Base(stem_s, src, mime)
    }
}

fn classify(name: &str, prefix: &str) -> (r: PhotoFile)
    ensures
        r.kind() == photo_kind(name@, prefix@),
{
    let v = chars_of(name);
    if v.len() == 0 || v[0] == '.' {
        return PhotoFile::Skip;
    }
    match find_last_dot(&v) {
        None => PhotoFile::Skip,
        Some(dot) => match mime_for(&v, dot + 1) {
            None => PhotoFile::Skip,
            Some(mime) => {
                let mut src = String::new();
                push_str(&mut src, prefix);
                push_str(&mut src, "/");
                push_str(&mut src, name);
                make_kind(&v, dot, src, mime)
            },
        },
    }
}

/// The sorted table of images: strictly ascending names.
spec fn sorted(b: Seq<(String, String, String)>) -> bool {
    forall|i: int, j: int| 0 <= i < j < b.len() ==> seq_lt(#[trigger] b[i].0@, #[trigger] b[j].0@)
}

/// `new` is `old` with the entry for `stem` set to `(src, mime)`: every
/// other entry kept, nothing else added, and `stem` present.
spec fn upserted(
    old: Seq<(String, String, String)>,
    new: Seq<(String, String, String)>,
    stem: Seq<char>,
    src: Seq<char>,
    mime: Seq<char>,
) -> bool {
    &&& exists|k: int| 0 <= k < new.len() && (#[trigger] new[k]).0@ == stem
    &&& forall|k: int|
        0 <= k < new.len() && (#[trigger] new[k]).0@ != stem ==> exists|k0: int|
            0 <= k0 < old.len() && old[k0] == new[k]
    &&& forall|k0: int|
        0 <= k0 < old.len() && (#[trigger] old[k0]).0@ != stem ==> exists|k: int|
            0 <= k < new.len() && new[k] == old[k0]
    &&& forall|k: int|
        0 <= k < new.len() && (#[trigger] new[k]).0@ == stem ==> new[k].1@ == src && new[k].2@
            == mime
}

/// Position of `stem` in the sorted table: every earlier name sorts
/// before it, the name there (if any) does not.
fn find_position(b: &Vec<(String, String, String)>, stem: &str) -> (k: usize)
    ensures
        k <= b@.len(),
        forall|j: int| 0 <= j < k ==> seq_lt(#[trigger] b@[j].0@, stem@),
        k < b@.len() ==> !seq_lt(b@[k as int].0@, stem@),
{
    let mut k: usize = 0;
    while k < b.len() && str_lt(b[k].0.as_str(), stem)
        invariant
            k <= b@.len(),
            forall|j: int| 0 <= j < k ==> seq_lt(#[trigger] b@[j].0@, stem@),
        decreases b.len() - k,
    {
        k = k + 1;
    }
    k
}

fn replace_at(b: &mut Vec<(String, String, String)>, k: usize, stem: String, src: String, mime: String)
    requires
        sorted(old(b)@),
        k < old(b)@.len(),
        old(b)@[k as int].0@ == stem@,
        forall|j: int| 0 <= j < k ==> seq_lt(#[trigger] old(b)@[j].0@, stem@),
    ensures
        sorted(final(b)@),
        upserted(old(b)@, final(b)@, stem@, src@, mime@),
{
    let ghost ob = b@;
    let ghost sk = stem@;
    let ghost (s1, s2) = (src@, mime@);
    b.set(k, (stem, src, mime));
    proof {
        assert forall|i: int, j: int| 0 <= i < j < b@.len() implies seq_lt(
            #[trigger] b@[i].0@,
            #[trigger] b@[j].0@,
        ) by {
            assert(seq_lt(ob[i].0@, ob[j].0@));
        }
        assert(b@[k as int].0@ == sk);
        assert forall|k0: int|
            0 <= k0 < ob.len() && (#[trigger] ob[k0]).0@ != sk implies exists|k1: int|
            0 <= k1 < b@.len() && b@[k1] == ob[k0] by {
            assert(b@[k0] == ob[k0]);
        }
        assert forall|k1: int|
            0 <= k1 < b@.len() && (#[trigger] b@[k1]).0@ != sk implies exists|k0: int|
            0 <= k0 < ob.len() && ob[k0] == b@[k1] by {
            assert(b@[k1] == ob[k1]);
        }
        assert forall|k1: int|
            0 <= k1 < b@.len() && (#[trigger] b@[k1]).0@ == sk implies b@[k1].1@ == s1
            && b@[k1].2@ == s2 by {
            if k1 != k {
                assert(b@[k1] == ob[k1]);
                if k1 < k {
                    seq_lt_irreflexive(sk);
                } else {
                    assert(seq_lt(ob[k as int].0@, ob[k1].0@));
                    seq_lt_irreflexive(sk);
                }
            }
        }
    }
}

fn insert_at(b: &mut Vec<(String, String, String)>, k: usize, stem: String, src: String, mime: String)
    requires
        sorted(old(b)@),
        k <= old(b)@.len(),
        k < old(b)@.len() ==> seq_lt(stem@, old(b)@[k as int].0@),
        forall|j: int| 0 <= j < k ==> seq_lt(#[trigger] old(b)@[j].0@, stem@),
    ensures
        sorted(final(b)@),
        upserted(old(b)@, final(b)@, stem@, src@, mime@),
{
    let ghost ob = b@;
    let ghost sk = stem@;
    let ghost (s1, s2) = (src@, mime@);
    b.insert(k, (stem, src, mime));
    proof {
        assert(b@ =~= ob.insert(k as int, b@[k as int]));
        assert forall|i: int, j: int| 0 <= i < j < b@.len() implies seq_lt(
            #[trigger] b@[i].0@,
            #[trigger] b@[j].0@,
        ) by {
            if j < k {
                assert(seq_lt(ob[i].0@, ob[j].0@));
            } else if j == k {
                assert(seq_lt(ob[i].0@, sk));
            } else if i == k {
                if j - 1 > k {
                    assert(seq_lt(ob[k as int].0@, ob[j - 1].0@));
                    seq_lt_transitive(sk, ob[k as int].0@, ob[j - 1].0@);
                }
            } else if i < k {
                assert(seq_lt(ob[i].0@, sk));
                seq_lt_transitive(ob[i].0@, sk, ob[k as int].0@);
                if j - 1 > k {
                    assert(seq_lt(ob[k as int].0@, ob[j - 1].0@));
                    seq_lt_transitive(ob[i].0@, ob[k as int].0@, ob[j - 1].0@);
                }
            } else {
                assert(seq_lt(ob[i - 1].0@, ob[j - 1].0@));
            }
        }
        assert(b@[k as int].0@ == sk);
        assert forall|k0: int|
            0 <= k0 < ob.len() && (#[trigger] ob[k0]).0@ != sk implies exists|k1: int|
            0 <= k1 < b@.len() && b@[k1] == ob[k0] by {
            if k0 < k {
                assert(b@[k0] == ob[k0]);
            } else {
                assert(b@[k0 + 1] == ob[k0]);
            }
        }
        assert forall|k1: int|
            0 <= k1 < b@.len() && (#[trigger] b@[k1]).0@ != sk implies exists|k0: int|
            0 <= k0 < ob.len() && ob[k0] == b@[k1] by {
            if k1 < k {
                assert(b@[k1] == ob[k1]);
            } else {
                assert(b@[k1] == ob[k1 - 1]);
            }
        }
        assert forall|k1: int|
            0 <= k1 < b@.len() && (#[trigger] b@[k1]).0@ == sk implies b@[k1].1@ == s1
            && b@[k1].2@ == s2 by {
            if k1 < k {
                seq_lt_irreflexive(sk);
            } else if k1 > k {
                if k1 - 1 > k {
                    assert(seq_lt(ob[k as int].0@, ob[k1 - 1].0@));
                    seq_lt_transitive(sk, ob[k as int].0@, ob[k1 - 1].0@);
                }
                assert(seq_lt(sk, b@[k1].0@));
                seq_lt_irreflexive(sk);
            }
        }
    }
}

/// Insert or replace the entry for `stem`, keeping the table sorted.
fn upsert(b: &mut Vec<(String, String, String)>, stem: String, src: String, mime: String)
    requires
        sorted(old(b)@),
    ensures
        sorted(final(b)@),
        upserted(old(b)@, final(b)@, stem@, src@, mime@),
{
    let k = find_position(b, stem.as_str());
    if k < b.len() && str_eq(b[k].0.as_str(), stem.as_str()) {
        replace_at(b, k, stem, src, mime);
    } else {
        proof {
            if k < b@.len() {
                seq_lt_total(b@[k as int].0@, stem@);
            }
        }
        insert_at(b, k, stem, src, mime);
    }
}

/// The pairs of a table as character sequences.
spec fn pairs_view(d: Seq<(String, String)>) -> Seq<(Seq<char>, Seq<char>)> {
    d.map_values(|p: (String, String)| (p.0@, p.1@))
}

/// The URL of the last 2x variant recorded for `name`.
fn last_double(doubles: &Vec<(String, String)>, name: &str) -> (r: Option<String>)
    ensures
        opt_string_view(r) == last_value(pairs_view(doubles@), name@),
{
    let mut k = doubles.len();
    assert(doubles@.take(k as int) =~= doubles@);
    while k > 0
        invariant
            k <= doubles@.len(),
            last_value(pairs_view(doubles@), name@) == last_value(
                pairs_view(doubles@.take(k as int)),
                name@,
            ),
        decreases k,
    {
        let ghost t = pairs_view(doubles@.take(k as int));
        assert(t.drop_last() =~= pairs_view(doubles@.take(k - 1)));
        assert(t.last() == (doubles@[k - 1].0@, doubles@[k - 1].1@));
        if str_eq(doubles[k - 1].0.as_str(), name) {
            return Some(owned(doubles[k - 1].1.as_str()));
        }
        k = k - 1;
    }
    assert(pairs_view(doubles@.take(0)) =~= Seq::<(Seq<char>, Seq<char>)>::empty());
    None
}

/// The sorted table holds exactly the stems of `list`, each with the
/// value of its last pair.
spec fn table_ok(b: Seq<(String, String, String)>, list: Seq<(Seq<char>, (Seq<char>, Seq<char>))>) -> bool {
    &&& forall|k: int|
        0 <= k < b.len() ==> last_value(list, (#[trigger] b[k]).0@) == Some((b[k].1@, b[k].2@))
    &&& forall|stem: Seq<char>|
        #[trigger] last_value(list, stem) is Some ==> exists|k: int| 0 <= k < b.len() && b[k].0@ == stem
}

proof fn table_ok_after_upsert(
    ob: Seq<(String, String, String)>,
    nb: Seq<(String, String, String)>,
    list: Seq<(Seq<char>, (Seq<char>, Seq<char>))>,
    st: Seq<char>,
    sr: Seq<char>,
    mi: Seq<char>,
)
    requires
        table_ok(ob, list),
        upserted(ob, nb, st, sr, mi),
    ensures
        table_ok(nb, list.push((st, (sr, mi)))),
{
    let new_list = list.push((st, (sr, mi)));
    assert(new_list.drop_last() =~= list);
    assert forall|k: int| 0 <= k < nb.len() implies last_value(new_list, (#[trigger] nb[k]).0@)
        == Some((nb[k].1@, nb[k].2@)) by {
        if nb[k].0@ != st {
            let k0 = choose|k0: int| 0 <= k0 < ob.len() && ob[k0] == nb[k];
            assert(last_value(list, ob[k0].0@) == Some((ob[k0].1@, ob[k0].2@)));
        }
    }
    assert forall|stem: Seq<char>| #[trigger] last_value(new_list, stem) is Some implies exists|k: int|
        0 <= k < nb.len() && nb[k].0@ == stem by {
        if stem != st {
            assert(last_value(list, stem) is Some);
            let k0 = choose|k0: int| 0 <= k0 < ob.len() && ob[k0].0@ == stem;
            assert(ob[k0].0@ != st);
            let k1 = choose|k1: int| 0 <= k1 < nb.len() && nb[k1] == ob[k0];
            assert(nb[k1].0@ == stem);
        } else {
            let k1 = choose|k1: int| 0 <= k1 < nb.len() && (#[trigger] nb[k1]).0@ == st;
            assert(nb[k1].0@ == stem);
        }
    }
}

/// The manifest of a photo directory, from its file names in directory
/// order (see [`is_manifest_of`]); `web_path_prefix` is the URL prefix of
/// the directory.
pub fn stock_photo_entries(file_names: &Vec<String>, web_path_prefix: &str) -> (r: Vec<
    StockPhotoEntry,
>)
    ensures
        is_manifest_of(r@, strings_view(file_names@), web_path_prefix@),
{
    let ghost files = strings_view(file_names@);
    let ghost prefix = web_path_prefix@;
    let mut bases: Vec<(String, String, String)> = Vec::new();
    let mut doubles: Vec<(String, String)> = Vec::new();
    let mut i: usize = 0;
    assert(pairs_view(doubles@) =~= double_photos(files.take(0), prefix));
    while i < file_names.len()
        invariant
            i <= file_names@.len(),
            files == strings_view(file_names@),
            prefix == web_path_prefix@,
            sorted(bases@),
            table_ok(bases@, base_photos(files.take(i as int), prefix)),
            pairs_view(doubles@) == double_photos(files.take(i as int), prefix),
        decreases file_names.len() - i,
    {
        let ghost p0 = files.take(i as int);
        let ghost p1 = files.take(i + 1);
        assert(p1.drop_last() =~= p0);
        assert(p1.last() == file_names@[i as int]@);
        let ghost old_list = base_photos(p0, prefix);
        let ghost ob = bases@;
        match classify(file_names[i].as_str(), web_path_prefix) {
            PhotoFile::Skip => {},
            PhotoFile::Base(stem, src, mime) => {
                let ghost (st, sr, mi) = (stem@, src@, mime@);
                let mime_s = owned(mime);
                upsert(&mut bases, stem, src, mime_s);
                proof {
                    table_ok_after_upsert(ob, bases@, old_list, st, sr, mi);
                }
            },
            PhotoFile::Double(base, src) => {
                doubles.push((base, src));
                assert(pairs_view(doubles@) =~= double_photos(p1, prefix));
            },
        }
        i = i + 1;
    }
    assert(files.take(i as int) =~= files);
    let ghost bases_list = base_photos(files, prefix);
    let mut out: Vec<StockPhotoEntry> = Vec::new();
    let mut k: usize = 0;
    while k < bases.len()
        invariant
            k <= bases@.len(),
            out@.len() == k,
            forall|j: int|
                0 <= j < k ==> (#[trigger] out@[j]).name@ == bases@[j].0@ && out@[j].src@
                    == bases@[j].1@ && out@[j].mime@ == bases@[j].2@ && opt_string_view(out@[j].src_2x)
                    == last_value(pairs_view(doubles@), bases@[j].0@) && out@[j].attribution@
                    == Seq::<char>::empty(),
        decreases bases.len() - k,
    {
        let src_2x = last_double(&doubles, bases[k].0.as_str());
        let entry = StockPhotoEntry {
            name: owned(bases[k].0.as_str()),
            src: owned(bases[k].1.as_str()),
            src_2x,
            mime: owned(bases[k].2.as_str()),
            attribution: String::new(),
        };
        out.push(entry);
        k = k + 1;
    }
    proof {
        let doubles_list = double_photos(files, prefix);
        assert forall|i1: int, j1: int| 0 <= i1 < j1 < out@.len() implies seq_lt(
            #[trigger] out@[i1].name@,
            #[trigger] out@[j1].name@,
        ) by {
            assert(seq_lt(bases@[i1].0@, bases@[j1].0@));
        }
        assert forall|i1: int| 0 <= i1 < out@.len() implies {
            &&& last_value(bases_list, #[trigger] out@[i1].name@) == Some(
                (out@[i1].src@, out@[i1].mime@),
            )
            &&& opt_string_view(out@[i1].src_2x) == last_value(doubles_list, out@[i1].name@)
            &&& out@[i1].attribution@ == Seq::<char>::empty()
        } by {
            assert(last_value(bases_list, bases@[i1].0@) == Some((bases@[i1].1@, bases@[i1].2@)));
        }
        assert forall|stem: Seq<char>| #[trigger]
            last_value(bases_list, stem) is Some implies exists|i1: int|
            0 <= i1 < out@.len() && out@[i1].name@ == stem by {
            let k0 = choose|k0: int| 0 <= k0 < bases@.len() && bases@[k0].0@ == stem;
            assert(out@[k0].name@ == stem);
        }
    }
    out
}

} // verus!
