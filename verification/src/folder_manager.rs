//! Choice of the folder captures are saved in when the user picked none.

use vstd::prelude::*;

verus! {

/// The folders tried, in order of preference, for a user profile directory `profile`
/// (when known): OneDrive pictures (Japanese and English names), local pictures (English
/// and Japanese names), documents, desktop; then the public pictures and documents folders,
/// and the root of drive C.
pub open spec fn folder_candidates(profile: Option<Seq<char>>) -> Seq<Seq<char>> {
    let public = seq![
        "C:\\Users\\Public\\Pictures"@,
        "C:\\Users\\Public\\Documents"@,
        "C:\\"@,
    ];
    match profile {
        Some(p) => seq![
            p + "\\OneDrive\\画像"@,
            p + "\\OneDrive\\Pictures"@,
            p + "\\Pictures"@,
            p + "\\画像"@,
            p + "\\Documents"@,
            p + "\\Desktop"@,
        ] + public,
        None => public,
    }
}

/// The contents of a list of strings.
pub open spec fn texts(v: Seq<String>) -> Seq<Seq<char>> {
    v.map_values(|s: String| s@)
}

fn joined(base: &str, tail: &str) -> (r: String)
    ensures
        r@ == base@ + tail@,
{
    let mut s = String::from_str(base);
    s.append(tail);
    s
}

/// Lists the candidate save folders for the user profile directory, when known.
pub fn get_folder_candidates(profile: Option<&str>) -> (r: Vec<String>)
    ensures
        texts(r@) == folder_candidates(
            match profile {
                Some(p) => Some(p@),
                None => None,
            },
        ),
{
    let mut r: Vec<String> = Vec::new();
    if let Some(p) = profile {
        r.push(joined(p, "\\OneDrive\\画像"));
        r.push(joined(p, "\\OneDrive\\Pictures"));
        r.push(joined(p, "\\Pictures"));
        r.push(joined(p, "\\画像"));
        r.push(joined(p, "\\Documents"));
        r.push(joined(p, "\\Desktop"));
    }
    r.push(String::from_str("C:\\Users\\Public\\Pictures"));
    r.push(String::from_str("C:\\Users\\Public\\Documents"));
    r.push(String::from_str("C:\\"));
    assert(texts(r@) =~= folder_candidates(
        match profile {
            Some(p) => Some(p@),
            None => None,
        },
    ));
    r
}

/// The save folder chosen from the candidates, given the outcome of the write test of
/// each candidate tried so far (in order): the first writable one with `\clickcapture`
/// appended, or the root of drive C when none was writable.
pub open spec fn chosen_folder(candidates: Seq<Seq<char>>, writable: Seq<bool>) -> Seq<char>
    decreases candidates.len(),
{
    if candidates.len() == 0 || writable.len() == 0 {
        "C:\\"@
    } else if writable[0] {
        candidates[0] + "\\clickcapture"@
    } else {
        chosen_folder(candidates.drop_first(), writable.drop_first())
    }
}

/// Chooses the save folder: `writable[i]` is the outcome of the write test of
/// `candidates[i]`; the caller tests them in order and may stop after the first success.
pub fn get_pictures_folder(candidates: &Vec<String>, writable: &Vec<bool>) -> (r: String)
    ensures
        r@ == chosen_folder(texts(candidates@), writable@),
{
    let mut i: usize = 0;
    assert(texts(candidates@).skip(0) =~= texts(candidates@));
    assert(writable@.skip(0) =~= writable@);
    while i < candidates.len() && i < writable.len()
        invariant
            i <= candidates.len(),
            i <= writable.len(),
            texts(candidates@).len() == candidates@.len(),
            chosen_folder(texts(candidates@), writable@) == chosen_folder(
                texts(candidates@).skip(i as int),
                writable@.skip(i as int),
            ),
        decreases candidates.len() - i,
    {
        let ghost c = texts(candidates@).skip(i as int);
        let ghost w = writable@.skip(i as int);
        assert(c[0] == candidates@[i as int]@);
        assert(w[0] == writable@[i as int]);
        if writable[i] {
            return joined(candidates[i].as_str(), "\\clickcapture");
        }
        assert(c.drop_first() =~= texts(candidates@).skip(i + 1));
        assert(w.drop_first() =~= writable@.skip(i + 1));
        i = i + 1;
    }
    assert(texts(candidates@).skip(i as int).len() == 0 || writable@.skip(i as int).len() == 0);
    String::from_str("C:\\")
}

} // verus!
