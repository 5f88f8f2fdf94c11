//! Decoding the packer's output, dropping its banner and summary noise, and
//! recognising the failures it reports.
use vstd::prelude::*;
use crate::lines::{
    contains, find, has_at, join, join_lines, leading_spaces, occurs_at,
    split_lines, text_lines, trim_start,
};
use crate::text::{char_vec, lemma_char_vec_deep_view};

verus! {

broadcast use lemma_char_vec_deep_view;

/// What GBK decoding (with BOM sniffing and replacement of malformed
/// sequences) makes of a byte sequence.
pub uninterp spec fn gbk_decoded(b: Seq<u8>) -> Seq<char>;

/// Relies on `encoding_rs::GBK.decode`: decoding depends on the bytes alone,
/// never fails (malformed sequences become U+FFFD), and empty input decodes to
/// empty text.
#[verifier::external_body]
fn decode_gbk(b: &Vec<u8>) -> (r: String)
    ensures
        r@ == gbk_decoded(b@),
        b@.len() == 0 ==> r@.len() == 0,
{
    let (text, _, _) = encoding_rs::GBK.decode(b.as_slice());
    text.into_owned()
}

/// Decodes raw output of the packer, which writes in the GBK code page.
pub fn decode_tool_text(b: &Vec<u8>) -> (r: String)
    ensures
        r@ == gbk_decoded(b@),
        b@.len() == 0 ==> r@.len() == 0,
{
    decode_gbk(b)
}

/// Line prefixes that mark the packer's banner, column headers and its own
/// size summary.
pub open spec fn noise_prefixes() -> Seq<Seq<char>> {
    seq![
        "Ultimate Packer"@,
        "Copyright"@,
        "UPX "@,
        "File size"@,
        "---"@,
        "Packed "@,
        "Unpacked "@,
    ]
}

fn noise_table() -> (r: Vec<Vec<char>>)
    ensures
        r.deep_view() == noise_prefixes(),
{
    let v = vec![
        char_vec("Ultimate Packer"),
        char_vec("Copyright"),
        char_vec("UPX "),
        char_vec("File size"),
        char_vec("---"),
        char_vec("Packed "),
        char_vec("Unpacked "),
    ];
    assert(v.deep_view() =~= noise_prefixes());
    v
}

pub open spec fn starts_with(s: Seq<char>, p: Seq<char>) -> bool {
    occurs_at(s, p, 0)
}

/// Whether a line carries information: not blank, and not noise.
pub open spec fn is_informative(l: Seq<char>) -> bool {
    let t = trim_start(l);
    t.len() > 0 && !(exists|k: int|
        0 <= k < noise_prefixes().len() && starts_with(t, #[trigger] noise_prefixes()[k]))
}

/// The informative lines of a text, in order.
pub open spec fn informative_lines(text: Seq<char>) -> Seq<Seq<char>> {
    text_lines(text).filter(|l: Seq<char>| is_informative(l))
}

fn informative(l: &Vec<char>, noise: &Vec<Vec<char>>) -> (r: bool)
    requires
        noise.deep_view() == noise_prefixes(),
    ensures
        r == is_informative(l@),
{
    let k = leading_spaces(l);
    if k == l.len() {
        return false;
    }
    let mut t: Vec<char> = Vec::new();
    let mut i: usize = k;
    while i < l.len()
        invariant
            k <= i <= l@.len(),
            t@ == l@.subrange(k as int, i as int),
        decreases l@.len() - i,
    {
        t.push(l[i]);
        i = i + 1;
        assert(t@ =~= l@.subrange(k as int, i as int));
    }
    assert(t@ == trim_start(l@));
    let mut j: usize = 0;
    while j < noise.len()
        invariant
            j <= noise@.len(),
            noise.deep_view() == noise_prefixes(),
            t@ == trim_start(l@),
            forall|m: int| 0 <= m < j ==> !starts_with(t@, #[trigger] noise_prefixes()[m]),
        decreases noise@.len() - j,
    {
        assert(noise@[j as int]@ =~= noise_prefixes()[j as int]);
        if has_at(&t, &noise[j], 0) {
            return false;
        }
        j = j + 1;
    }
    true
}

/// The informative lines of `text`, joined by line feeds.
pub fn filter_text(text: &Vec<char>) -> (r: Vec<char>)
    ensures
        r@ == join_lines(informative_lines(text@)),
{
    let noise = noise_table();
    let ls = split_lines(text);
    let mut kept: Vec<Vec<char>> = Vec::new();
    let mut i: usize = 0;
    while i < ls.len()
        invariant
            i <= ls@.len(),
            noise.deep_view() == noise_prefixes(),
            kept.deep_view() == ls.deep_view().take(i as int).filter(|l: Seq<char>| is_informative(l)),
        decreases ls@.len() - i,
    {
        let ghost before = ls.deep_view().take(i as int);
        assert(ls.deep_view()[i as int] == ls@[i as int]@);
        assert(ls.deep_view().take(i + 1) =~= before.push(ls@[i as int]@));
        proof {
            before.lemma_filter_push(ls@[i as int]@, |l: Seq<char>| is_informative(l));
        }
        if informative(&ls[i], &noise) {
            let line = ls[i].clone();
            assert(line@ =~= ls@[i as int]@);
            let ghost dv = kept.deep_view();
            assert(line.deep_view() =~= line@);
            kept.push(line);
            assert(kept.deep_view() =~= dv.push(ls@[i as int]@));
        }
        i = i + 1;
    }
    assert(ls.deep_view().take(i as int) =~= ls.deep_view());
    join(&kept)
}

/// Failures the packer reports that callers can act on.
#[derive(Clone, Copy, Debug, PartialEq, Eq, Structural)]
pub enum Category {
    AlreadyPacked,
    NotPacked,
    Overlay,
    NotCompressible,
    CannotPack,
    FileAccess,
}

/// The categories in the order they are tried: more specific signatures come
/// before more general ones.
pub open spec fn category_order() -> Seq<Category> {
    seq![
        Category::AlreadyPacked,
        Category::NotPacked,
        Category::Overlay,
        Category::NotCompressible,
        Category::CannotPack,
        Category::FileAccess,
    ]
}

/// The texts whose presence signals a category.
pub open spec fn signatures(c: Category) -> Seq<Seq<char>> {
    match c {
        Category::AlreadyPacked => seq!["AlreadyPackedException"@, "already packed"@],
        Category::NotPacked => seq!["NotPackedException"@, "not packed"@],
        Category::Overlay => seq!["OverlayException"@, "overlay"@],
        Category::NotCompressible => seq!["NotCompressibleException"@, "not compressible"@],
        Category::CannotPack => seq!["CantPackException"@, "can't pack"@],
        Category::FileAccess => seq!["IOException"@, "can't open"@, "Permission denied"@],
    }
}

pub open spec fn shows(text: Seq<char>, c: Category) -> bool {
    exists|k: int| 0 <= k < signatures(c).len() && contains(text, #[trigger] signatures(c)[k])
}

/// The first category at or after position `i` of the order whose signature
/// occurs in `text`.
pub open spec fn first_shown(text: Seq<char>, i: int) -> Option<Category>
    decreases category_order().len() - i,
{
    if i < 0 || i >= category_order().len() {
        None
    } else if shows(text, category_order()[i]) {
        Some(category_order()[i])
    } else {
        first_shown(text, i + 1)
    }
}

/// The category of a failure text, if any signature occurs in it.
pub open spec fn category_of(text: Seq<char>) -> Option<Category> {
    first_shown(text, 0)
}

fn order_table() -> (r: Vec<Category>)
    ensures
        r@ == category_order(),
{
    let v = vec![
        Category::AlreadyPacked,
        Category::NotPacked,
        Category::Overlay,
        Category::NotCompressible,
        Category::CannotPack,
        Category::FileAccess,
    ];
    assert(v@ =~= category_order());
    v
}

fn signature_table(c: Category) -> (r: Vec<Vec<char>>)
    ensures
        r.deep_view() == signatures(c),
{
    let v = match c {
        Category::AlreadyPacked => vec![
            char_vec("AlreadyPackedException"),
            char_vec("already packed"),
        ],
        Category::NotPacked => vec![char_vec("NotPackedException"), char_vec("not packed")],
        Category::Overlay => vec![char_vec("OverlayException"), char_vec("overlay")],
        Category::NotCompressible => vec![
            char_vec("NotCompressibleException"),
            char_vec("not compressible"),
        ],
        Category::CannotPack => vec![char_vec("CantPackException"), char_vec("can't pack")],
        Category::FileAccess => vec![
            char_vec("IOException"),
            char_vec("can't open"),
            char_vec("Permission denied"),
        ],
    };
    assert(v.deep_view() =~= signatures(c));
    v
}

fn shows_category(text: &Vec<char>, c: Category) -> (r: bool)
    ensures
        r == shows(text@, c),
{
    let sigs = signature_table(c);
    let mut k: usize = 0;
    while k < sigs.len()
        invariant
            k <= sigs@.len(),
            sigs.deep_view() == signatures(c),
            forall|m: int| 0 <= m < k ==> !contains(text@, #[trigger] signatures(c)[m]),
        decreases sigs@.len() - k,
    {
        assert(sigs@[k as int]@ =~= signatures(c)[k as int]);
        if find(text, &sigs[k]) {
            return true;
        }
        k = k + 1;
    }
    false
}

/// Recognises the failure reported in `text`: the first category, in the
/// fixed order, one of whose signatures occurs in it.
pub fn classify(text: &Vec<char>) -> (r: Option<Category>)
    ensures
        r == category_of(text@),
{
    let order = order_table();
    let mut i: usize = 0;
    while i < order.len()
        invariant
            i <= order@.len(),
            order@ == category_order(),
            first_shown(text@, 0) == first_shown(text@, i as int),
        decreases order@.len() - i,
    {
        if shows_category(text, order[i]) {
            return Some(order[i]);
        }
        i = i + 1;
    }
    None
}

} // verus!
