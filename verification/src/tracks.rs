//! Stream selection and index translation.
//!
//! The server numbers streams absolutely across a media source; the player
//! numbers audio and subtitle tracks one-based within their type. The
//! translation between the two is the most bug-prone operation of the whole
//! client, so it is a pure function with an exact contract.

use vstd::prelude::*;

use crate::text::{eq_ignore_ascii_case, lower_chars, str_eq};
use crate::types::MediaStream;

verus! {

/// How many of the first `n` streams have the given type.
pub open spec fn count_type_up_to(streams: Seq<MediaStream>, kind: Seq<char>, n: int) -> int
    decreases n,
{
    if n <= 0 {
        0
    } else {
        count_type_up_to(streams, kind, n - 1) + if streams[n - 1].stream_type@ == kind {
            1int
        } else {
            0int
        }
    }
}

/// `count_type_up_to` is a cardinality: the number of streams of the type
/// among the first `n` equals the length of their filtered subsequence. So
/// the translated track number of a match at position `p` is the size of
/// the set of streams of the type standing at or before `p`.
pub proof fn lemma_count_is_filtered_len(streams: Seq<MediaStream>, kind: Seq<char>, n: int)
    requires
        0 <= n <= streams.len(),
    ensures
        count_type_up_to(streams, kind, n) == streams.take(n).filter(
            |s: MediaStream| s.stream_type@ == kind,
        ).len(),
    decreases n,
{
    reveal_with_fuel(Seq::<MediaStream>::filter, 2);
    if n > 0 {
        lemma_count_is_filtered_len(streams, kind, n - 1);
        assert(streams.take(n).drop_last() =~= streams.take(n - 1));
        assert(streams.take(n).last() == streams[n - 1]);
    } else {
        assert(streams.take(0) =~= Seq::<MediaStream>::empty());
    }
}

/// Whether position `p` holds the first stream of the given type whose
/// absolute index is `j_index`.
pub open spec fn is_first_index_match(
    streams: Seq<MediaStream>,
    kind: Seq<char>,
    j_index: i32,
    p: int,
) -> bool {
    &&& 0 <= p < streams.len()
    &&& streams[p].stream_type@ == kind
    &&& streams[p].index == j_index
    &&& forall|q: int|
        0 <= q < p ==> !(streams[q].stream_type@ == kind && streams[q].index == j_index)
}

/// Whether `m` is the correct player track number for the server index
/// `j_index` among `streams`: the count of streams of the type up to and
/// including the first match, or the fallback 1 when nothing matches.
pub open spec fn translated_index_ok(
    streams: Seq<MediaStream>,
    kind: Seq<char>,
    j_index: i32,
    m: i32,
) -> bool {
    &&& forall|p: int|
        is_first_index_match(streams, kind, j_index, p) ==> m == count_type_up_to(
            streams,
            kind,
            p + 1,
        )
    &&& (forall|p: int|
        0 <= p < streams.len() ==> !(streams[p].stream_type@ == kind && streams[p].index
            == j_index)) ==> m == 1
}

/// Translate the server's absolute stream index into the player's one-based
/// track number within the type: the number of streams of that type up to
/// and including the matched one. Falls back to the first track of the type
/// when no stream matches.
pub fn jellyfin_to_mpv_track_index(
    streams: &Vec<MediaStream>,
    stream_type: &str,
    jellyfin_index: i32,
) -> (r: i32)
    requires
        streams@.len() < 0x8000_0000,
    ensures
        translated_index_ok(streams@, stream_type@, jellyfin_index, r),
{
    let mut mpv_index: i32 = 0;
    let mut i: usize = 0;
    while i < streams.len()
        invariant
            0 <= i <= streams@.len(),
            streams@.len() < 0x8000_0000,
            mpv_index == count_type_up_to(streams@, stream_type@, i as int),
            0 <= mpv_index <= i,
            forall|q: int|
                0 <= q < i ==> !(streams@[q].stream_type@ == stream_type@ && streams@[q].index
                    == jellyfin_index),
        decreases streams@.len() - i,
    {
        if str_eq(streams[i].stream_type.as_str(), stream_type) {
            mpv_index += 1;
            if streams[i].index == jellyfin_index {
                proof {
                    assert(is_first_index_match(
                        streams@,
                        stream_type@,
                        jellyfin_index,
                        i as int,
                    ));
                    assert(forall|p: int|
                        is_first_index_match(streams@, stream_type@, jellyfin_index, p) ==> p
                            == i as int);
                }
                return mpv_index;
            }
        }
        i += 1;
    }
    1
}

/// Whether a stream has the given type and, up to ASCII case, the given
/// language.
pub open spec fn lang_matches(s: MediaStream, kind: Seq<char>, lang: Seq<char>) -> bool {
    &&& s.stream_type@ == kind
    &&& match s.language {
        Some(l) => lower_chars(l@) == lower_chars(lang),
        None => false,
    }
}

/// Whether position `p` holds the first stream matching type and language.
pub open spec fn is_first_lang_match(
    streams: Seq<MediaStream>,
    kind: Seq<char>,
    lang: Seq<char>,
    p: int,
) -> bool {
    &&& 0 <= p < streams.len()
    &&& lang_matches(streams[p], kind, lang)
    &&& forall|q: int| 0 <= q < p ==> !lang_matches(streams[q], kind, lang)
}

/// Whether a stream matches type, language, and exact display title.
pub open spec fn pref_matches(
    s: MediaStream,
    kind: Seq<char>,
    lang: Seq<char>,
    title: Seq<char>,
) -> bool {
    &&& lang_matches(s, kind, lang)
    &&& match s.display_title {
        Some(t) => t@ == title,
        None => false,
    }
}

/// Whether position `p` holds the first stream matching type, language,
/// and display title.
pub open spec fn is_first_pref_match(
    streams: Seq<MediaStream>,
    kind: Seq<char>,
    lang: Seq<char>,
    title: Seq<char>,
    p: int,
) -> bool {
    &&& 0 <= p < streams.len()
    &&& pref_matches(streams[p], kind, lang, title)
    &&& forall|q: int| 0 <= q < p ==> !pref_matches(streams[q], kind, lang, title)
}

/// The absolute index of the first stream of the given type whose language
/// equals `lang` up to ASCII case, if any.
pub fn find_stream_by_lang(streams: &Vec<MediaStream>, stream_type: &str, lang: &str) -> (r:
    Option<i32>)
    ensures
        match r {
            Some(idx) => exists|p: int|
                0 <= p < streams@.len() && lang_matches(#[trigger] streams@[p], stream_type@, lang@)
                    && streams@[p].index == idx && forall|q: int|
                    0 <= q < p ==> !lang_matches(streams@[q], stream_type@, lang@),
            None => forall|p: int|
                0 <= p < streams@.len() ==> !lang_matches(
                    #[trigger] streams@[p],
                    stream_type@,
                    lang@,
                ),
        },
{
    let mut i: usize = 0;
    while i < streams.len()
        invariant
            0 <= i <= streams@.len(),
            forall|q: int| 0 <= q < i ==> !lang_matches(#[trigger] streams@[q], stream_type@, lang@),
        decreases streams@.len() - i,
    {
        let s = &streams[i];
        if str_eq(s.stream_type.as_str(), stream_type) {
            match &s.language {
                Some(l) => {
                    if eq_ignore_ascii_case(l.as_str(), lang) {
                        return Some(s.index);
                    }
                },
                None => {},
            }
        }
        i += 1;
    }
    None
}

fn find_first_lang(streams: &Vec<MediaStream>, stream_type: &str, lang: &str) -> (r: Option<i32>)
    ensures
        match r {
            Some(idx) => exists|p: int|
                #[trigger] is_first_lang_match(streams@, stream_type@, lang@, p)
                    && streams@[p].index == idx,
            None => forall|p: int|
                0 <= p < streams@.len() ==> !lang_matches(
                    #[trigger] streams@[p],
                    stream_type@,
                    lang@,
                ),
        },
{
    let r = find_stream_by_lang(streams, stream_type, lang);
    proof {
        match r {
            Some(idx) => {
                let p = choose|p: int|
                    0 <= p < streams@.len() && lang_matches(
                        #[trigger] streams@[p],
                        stream_type@,
                        lang@,
                    ) && streams@[p].index == idx && forall|q: int|
                        0 <= q < p ==> !lang_matches(streams@[q], stream_type@, lang@);
                assert(is_first_lang_match(streams@, stream_type@, lang@, p));
            },
            None => {},
        }
    }
    r
}

/// The absolute index of the preferred stream: the first stream matching
/// type, language, and display title when a title is given and such a
/// stream exists; otherwise the first stream matching type and language.
pub fn find_stream_by_preference(
    streams: &Vec<MediaStream>,
    stream_type: &str,
    lang: &str,
    title: Option<&str>,
) -> (r: Option<i32>)
    ensures
        match r {
            Some(idx) => exists|p: int|
                0 <= p < streams@.len() && lang_matches(#[trigger] streams@[p], stream_type@, lang@)
                    && streams@[p].index == idx,
            None => forall|p: int|
                0 <= p < streams@.len() ==> !lang_matches(
                    #[trigger] streams@[p],
                    stream_type@,
                    lang@,
                ),
        },
        title matches Some(t) ==> ((exists|p: int|
            0 <= p < streams@.len() && pref_matches(
                #[trigger] streams@[p],
                stream_type@,
                lang@,
                t@,
            )) ==> exists|p: int|
            is_first_pref_match(streams@, stream_type@, lang@, t@, p) && r == Some(
                streams@[p].index,
            )),
        (match title {
            None => true,
            Some(t) => forall|p: int|
                0 <= p < streams@.len() ==> !pref_matches(
                    #[trigger] streams@[p],
                    stream_type@,
                    lang@,
                    t@,
                ),
        }) && (exists|p: int|
            0 <= p < streams@.len() && lang_matches(#[trigger] streams@[p], stream_type@, lang@))
            ==> exists|p: int|
            #[trigger] is_first_lang_match(streams@, stream_type@, lang@, p) && r == Some(
                streams@[p].index,
            ),
{
    match title {
        Some(t) => {
            let mut i: usize = 0;
            while i < streams.len()
                invariant
                    title == Some(t),
                    0 <= i <= streams@.len(),
                    forall|q: int|
                        0 <= q < i ==> !pref_matches(
                            #[trigger] streams@[q],
                            stream_type@,
                            lang@,
                            t@,
                        ),
                decreases streams@.len() - i,
            {
                let s = &streams[i];
                if str_eq(s.stream_type.as_str(), stream_type) {
                    let lang_ok = match &s.language {
                        Some(l) => eq_ignore_ascii_case(l.as_str(), lang),
                        None => false,
                    };
                    let title_ok = match &s.display_title {
                        Some(dt) => str_eq(dt.as_str(), t),
                        None => false,
                    };
                    if lang_ok && title_ok {
                        let idx = s.index;
                        proof {
                            assert(pref_matches(streams@[i as int], stream_type@, lang@, t@));
                            assert(lang_matches(streams@[i as int], stream_type@, lang@));
                            assert(is_first_pref_match(
                                streams@,
                                stream_type@,
                                lang@,
                                t@,
                                i as int,
                            ));
                            assert(streams@[i as int].index == idx);
                        }
                        let ret = Some(idx);
                        proof {
                            assert(exists|p: int|
                                is_first_pref_match(streams@, stream_type@, lang@, t@, p) && ret
                                    == Some(streams@[p].index));
                        }
                        return ret;
                    }
                }
                i += 1;
            }
            find_first_lang(streams, stream_type, lang)
        },
        None => find_first_lang(streams, stream_type, lang),
    }
}

} // verus!
