//! The provider-facing logic: decoding the obfuscated source URLs that
//! allanime hands out, choosing the best source of an episode and the best
//! link of a source, and the request URLs of the provider's API.
use vstd::prelude::*;
use vstd::string::*;
use vstd::utf8::encode_utf8;
use crate::text::{
    agrees_from, lemma_replace_leaves_none, lemma_replace_without_occurrence, occurs_in, replace_all,
    replace_chars, same_text,
};
use crate::provider::priority::{
    lemma_priority_strict_order, leads, none_above_zero, priority_greater, priority_gt, priority_ge,
    ZERO_PRIORITY,
};
use crate::provider::responses::episode_response::{EpisodeResponse, Source};
use crate::provider::responses::provider_links_response::{Link, ProviderLinksResponse};

verus! {

/// Path of the provider's clock endpoint as it appears in decoded links.
pub const CLOCK_PATH: &'static str = "/apivtwo/clock?id=";

/// What every `CLOCK_PATH` in a decoded link is rewritten to.
pub const CLOCK_URL: &'static str = "https://allanime.day/apivtwo/clock.json?id=";

/// The byte that every decoded byte of a source URL is XOR-ed with.
pub const SOURCE_MASK: u8 = 56;

/// An ASCII hexadecimal digit (`0-9`, `A-F`, `a-f`).
pub open spec fn is_hex_digit(b: u8) -> bool {
    (0x30 <= b <= 0x39) || (0x41 <= b <= 0x46) || (0x61 <= b <= 0x66)
}

/// The value of an ASCII hexadecimal digit.
pub open spec fn hex_digit_value(b: u8) -> int {
    if b <= 0x39 {
        b - 0x30
    } else if b <= 0x46 {
        b - 0x41 + 10
    } else {
        b - 0x61 + 10
    }
}

/// Text that hex-decodes: an even number of hexadecimal digits.
pub open spec fn is_hex_text(text: Seq<u8>) -> bool {
    &&& text.len() % 2 == 0
    &&& forall|i: int| 0 <= i < text.len() ==> is_hex_digit(#[trigger] text[i])
}

/// The bytes that hexadecimal text stands for, two digits per byte, the
/// high nibble first.
pub open spec fn hex_bytes(text: Seq<u8>) -> Seq<u8> {
    Seq::new(
        text.len() / 2,
        |i: int| (hex_digit_value(text[2 * i]) * 16 + hex_digit_value(text[2 * i + 1])) as u8,
    )
}

/// Declares `hex::FromHexError` so that the decoder's result can carry it.
#[verifier::external_type_specification]
#[verifier::external_body]
pub struct ExFromHexError(hex::FromHexError);

/// `hex::decode` of the hex crate. Its contract claims what the crate's
/// source shows: the input is accepted exactly when it has an even length
/// and every byte is a hexadecimal digit of either case, and each pair of
/// digits becomes one byte, high nibble first.
#[verifier::external_body]
fn decode_hex(data: &[u8]) -> (r: Result<Vec<u8>, hex::FromHexError>)
    ensures
        r is Ok <==> is_hex_text(data@),
        r matches Ok(v) ==> v@ == hex_bytes(data@),
{
    hex::decode(data)
}

/// Each byte XOR-ed with `SOURCE_MASK` and read as the character with
/// that code point.
pub open spec fn unmasked(bytes: Seq<u8>) -> Seq<char> {
    Seq::new(bytes.len(), |i: int| (bytes[i] ^ SOURCE_MASK) as char)
}

/// A source URL that can be decoded: two leading bytes, then hexadecimal
/// text.
pub open spec fn decryptable(url: Seq<u8>) -> bool {
    url.len() >= 2 && is_hex_text(url.skip(2))
}

/// The link that an obfuscated source URL stands for: the hexadecimal text
/// after the first two bytes, decoded and unmasked, with the clock path
/// rewritten to the full clock URL.
pub open spec fn decrypted_link(url: Seq<u8>) -> Seq<char> {
    replace_all(unmasked(hex_bytes(url.skip(2))), CLOCK_PATH@, CLOCK_URL@)
}

/// Whether `decrypt_allanime` accepts `source_url`.
pub fn can_decrypt(source_url: &str) -> (r: bool)
    ensures
        r == decryptable(source_url.spec_bytes()),
{
    let bytes = source_url.as_bytes();
    if bytes.len() < 2 {
        return false;
    }
    let hex_text = vstd::slice::slice_subrange(bytes, 2, bytes.len());
    assert(hex_text@ =~= bytes@.skip(2));
    decode_hex(hex_text).is_ok()
}

/// Decodes a source URL of the provider into the link it stands for.
pub fn decrypt_allanime(source_url: &str) -> (link: String)
    requires
        decryptable(source_url.spec_bytes()),
    ensures
        link@ == decrypted_link(source_url.spec_bytes()),
{
    let bytes = source_url.as_bytes();
    let hex_text = vstd::slice::slice_subrange(bytes, 2, bytes.len());
    assert(hex_text@ =~= bytes@.skip(2));
    let decoded = match decode_hex(hex_text) {
        Ok(v) => v,
        Err(_) => {
            return String::new();
        },
    };
    let mut plain: Vec<char> = Vec::new();
    let mut i: usize = 0;
    while i < decoded.len()
        invariant
            i <= decoded@.len(),
            plain@ == unmasked(decoded@).take(i as int),
        decreases decoded@.len() - i,
    {
        let c = (decoded[i] ^ SOURCE_MASK) as char;
        plain.push(c);
        i = i + 1;
        assert(plain@ =~= unmasked(decoded@).take(i as int));
    }
    assert(plain@ =~= unmasked(decoded@));
    proof {
        reveal_strlit("/apivtwo/clock?id=");
    }
    replace_chars(&plain, CLOCK_PATH, CLOCK_URL)
}

/// Every clock path of a decoded link has been rewritten: none is left in
/// the link that `decrypt_allanime` returns.
pub proof fn lemma_clock_paths_rewritten(url: Seq<u8>)
    ensures
        !occurs_in(decrypted_link(url), CLOCK_PATH@),
{
    reveal_strlit("/apivtwo/clock?id=");
    reveal_strlit("https://allanime.day/apivtwo/clock.json?id=");
    let from = CLOCK_PATH@;
    let to = CLOCK_URL@;
    assert(from =~= seq![
        '/', 'a', 'p', 'i', 'v', 't', 'w', 'o', '/', 'c', 'l', 'o',
        'c', 'k', '?', 'i', 'd', '=',
    ]);
    assert(to =~= seq![
        'h', 't', 't', 'p', 's', ':', '/', '/', 'a', 'l', 'l', 'a',
        'n', 'i', 'm', 'e', '.', 'd', 'a', 'y', '/', 'a', 'p', 'i',
        'v', 't', 'w', 'o', '/', 'c', 'l', 'o', 'c', 'k', '.', 'j',
        's', 'o', 'n', '?', 'i', 'd', '=',
    ]);
    assert forall|i: int| 0 <= i < from.len() implies #[trigger] from[i] != to[0] by {}
    assert forall|k: int| 0 <= k < to.len() implies !#[trigger] agrees_from(from, to, k) by {
        let n = if to.len() - k < from.len() { to.len() - k } else { from.len() as int };
        if k == 6 {
            assert(to.subrange(k, k + n)[1] != from.take(n)[1]);
        } else if k == 7 {
            assert(to.subrange(k, k + n)[2] != from.take(n)[2]);
        } else if k == 20 {
            assert(to.subrange(k, k + n)[14] != from.take(n)[14]);
        } else if k == 28 {
            assert(to.subrange(k, k + n)[1] != from.take(n)[1]);
        } else {
            assert(to.subrange(k, k + n)[0] != from.take(n)[0]);
        }
    }
    lemma_replace_leaves_none(unmasked(hex_bytes(url.skip(2))), from, to);
}

/// Decoding yields one character per pair of hexadecimal digits after the
/// first two bytes: as many characters as half that text, character `i`
/// being the byte that digits `2i` and `2i + 1` stand for, XOR-ed with 56.
/// Where that text holds no clock path, it is the link itself.
pub proof fn lemma_one_character_per_byte(url: Seq<u8>)
    requires
        decryptable(url),
    ensures
        unmasked(hex_bytes(url.skip(2))).len() == (url.len() - 2) / 2,
        forall|i: int|
            0 <= i < (url.len() - 2) / 2 ==> #[trigger] unmasked(hex_bytes(url.skip(2)))[i] == (((
            hex_digit_value(url[2 + 2 * i]) * 16 + hex_digit_value(url[3 + 2 * i])) as u8) ^ 56u8) as char,
        !occurs_in(unmasked(hex_bytes(url.skip(2))), CLOCK_PATH@) ==> decrypted_link(url)
            == unmasked(hex_bytes(url.skip(2))),
{
    let text = url.skip(2);
    assert forall|i: int| 0 <= i < (url.len() - 2) / 2 implies #[trigger] unmasked(hex_bytes(text))[i]
        == (((hex_digit_value(url[2 + 2 * i]) * 16 + hex_digit_value(url[3 + 2 * i])) as u8)
        ^ 56u8) as char by {
        assert(text[2 * i] == url[2 + 2 * i]);
        assert(text[2 * i + 1] == url[3 + 2 * i]);
    }
    reveal_strlit("/apivtwo/clock?id=");
    if !occurs_in(unmasked(hex_bytes(text)), CLOCK_PATH@) {
        lemma_replace_without_occurrence(unmasked(hex_bytes(text)), CLOCK_PATH@, CLOCK_URL@);
    }
}

/// The source streamed from is named exactly "Default", "Sak" or
/// "Luf-mp4", and no source with one of these names has a greater priority
/// (nor, earlier in the list, an equal one); when none is chosen, no source
/// with one of these names has a priority above `0.0`. Sources of any other
/// name are never chosen.
pub proof fn lemma_stream_source_is_playable(sources: Seq<Source>, chosen: Option<int>)
    requires
        match chosen {
            Some(i) => leads(source_priorities(sources), playable_sources(sources), i),
            None => none_above_zero(source_priorities(sources), playable_sources(sources)),
        },
    ensures
        chosen matches Some(i) ==> ({
            let name = sources[i].source_name@;
            name == "Default"@ || name == "Sak"@ || name == "Luf-mp4"@
        }),
        chosen matches Some(i) ==> forall|j: int|
            0 <= j < sources.len() && ({
                let name = (#[trigger] sources[j]).source_name@;
                name == "Default"@ || name == "Sak"@ || name == "Luf-mp4"@
            }) ==> !priority_gt(sources[j].priority, sources[i].priority) && (j < i
                ==> !priority_ge(sources[j].priority, sources[i].priority)),
        chosen is None ==> forall|j: int|
            0 <= j < sources.len() && ({
                let name = (#[trigger] sources[j]).source_name@;
                name == "Default"@ || name == "Sak"@ || name == "Luf-mp4"@
            }) ==> !priority_gt(sources[j].priority, ZERO_PRIORITY),
{
    let prios = source_priorities(sources);
    let playable = playable_sources(sources);
    match chosen {
        Some(i) => {
            assert(playable[i]);
            assert forall|j: int|
                0 <= j < sources.len() && ({
                    let name = (#[trigger] sources[j]).source_name@;
                    name == "Default"@ || name == "Sak"@ || name == "Luf-mp4"@
                }) implies !priority_gt(sources[j].priority, sources[i].priority) && (j < i
                ==> !priority_ge(sources[j].priority, sources[i].priority)) by {
                assert(playable[j]);
                assert(prios[j] == sources[j].priority);
                if j == i {
                    lemma_priority_strict_order(prios[i], prios[i], prios[i]);
                } else if j < i {
                    assert(!priority_ge(prios[j], prios[i]));
                } else {
                    assert(!priority_gt(prios[j], prios[i]));
                }
            }
        },
        None => {
            assert forall|j: int|
                0 <= j < sources.len() && ({
                    let name = (#[trigger] sources[j]).source_name@;
                    name == "Default"@ || name == "Sak"@ || name == "Luf-mp4"@
                }) implies !priority_gt(sources[j].priority, ZERO_PRIORITY) by {
                assert(playable[j]);
                assert(prios[j] == sources[j].priority);
            }
        },
    }
}

/// The source names whose links this service knows how to play.
pub open spec fn playable_name(name: Seq<char>) -> bool {
    name == "Default"@ || name == "Sak"@ || name == "Luf-mp4"@
}

/// The priorities of a list of sources.
pub open spec fn source_priorities(sources: Seq<Source>) -> Seq<u32> {
    Seq::new(sources.len(), |i: int| sources[i].priority)
}

/// Which sources of a list have a playable name.
pub open spec fn playable_sources(sources: Seq<Source>) -> Seq<bool> {
    Seq::new(sources.len(), |i: int| playable_name(sources[i].source_name@))
}

/// Whether a source has a playable name.
fn is_playable(source: &Source) -> (r: bool)
    ensures
        r == playable_name(source.source_name@),
{
    let name = source.source_name.as_str();
    same_text(name, "Default") || same_text(name, "Sak") || same_text(name, "Luf-mp4")
}

/// The position, in the episode's source list, of the source to stream
/// from: the first playable source with the greatest priority, which must
/// be greater than `0.0`. `None` when the episode is missing or no playable
/// source has a priority above `0.0`.
pub fn best_source(episode_response: &EpisodeResponse) -> (r: Option<usize>)
    ensures
        match episode_response.data.episode {
            None => r is None,
            Some(episode) => {
                let prios = source_priorities(episode.source_urls@);
                let playable = playable_sources(episode.source_urls@);
                match r {
                    None => none_above_zero(prios, playable),
                    Some(i) => leads(prios, playable, i as int),
                }
            },
        },
{
    let episode = match &episode_response.data.episode {
        None => {
            return None;
        },
        Some(episode) => episode,
    };
    let sources = &episode.source_urls;
    let ghost prios = source_priorities(sources@);
    let ghost playable = playable_sources(sources@);
    let mut best: Option<usize> = None;
    let mut priority: u32 = ZERO_PRIORITY;
    let mut idx: usize = 0;
    while idx < sources.len()
        invariant
            prios == source_priorities(sources@),
            playable == playable_sources(sources@),
            idx <= sources@.len(),
            best is None ==> priority == ZERO_PRIORITY && forall|j: int|
                0 <= j < idx && playable[j] ==> !priority_gt(#[trigger] prios[j], ZERO_PRIORITY),
            best matches Some(b) ==> {
                &&& b < idx
                &&& priority == prios[b as int]
                &&& playable[b as int]
                &&& priority_gt(prios[b as int], ZERO_PRIORITY)
                &&& forall|j: int|
                    0 <= j < b && playable[j] ==> !priority_ge(#[trigger] prios[j], prios[b as int])
                &&& forall|j: int|
                    b < j < idx && playable[j] ==> !priority_gt(#[trigger] prios[j], prios[b as int])
            },
        decreases sources@.len() - idx,
    {
        let source = &sources[idx];
        assert(prios[idx as int] == source.priority);
        assert(playable[idx as int] == playable_name(source.source_name@));
        if priority_greater(source.priority, priority) {
            if is_playable(source) {
                priority = source.priority;
                best = Some(idx);
            }
        }
        idx = idx + 1;
    }
    best
}

/// What to fetch for an episode's stream: the links URL that the chosen
/// source's URL decodes to, and the chosen source's name.
#[derive(Debug, PartialEq, Eq)]
pub struct StreamRequest {
    pub links_url: String,
    pub source_name: String,
}

/// The source that `best_source` chooses, if any, has a URL that decodes.
pub open spec fn chosen_source_decodes(episode_response: EpisodeResponse) -> bool {
    match episode_response.data.episode {
        None => true,
        Some(episode) => forall|i: int|
            #[trigger] leads(
                source_priorities(episode.source_urls@),
                playable_sources(episode.source_urls@),
                i,
            ) ==> decryptable(encode_utf8(episode.source_urls@[i].source_url@)),
    }
}

/// Whether `stream_request` accepts `episode_response`.
pub fn can_stream(episode_response: &EpisodeResponse) -> (r: bool)
    ensures
        r == chosen_source_decodes(*episode_response),
{
    match best_source(episode_response) {
        None => true,
        Some(i) => {
            let episode = episode_response.data.episode.as_ref().unwrap();
            let sources = &episode.source_urls;
            let ghost prios = source_priorities(sources@);
            let ghost playable = playable_sources(sources@);
            proof {
                assert forall|j: int| #[trigger] leads(prios, playable, j) implies j == i by {
                    if j < i {
                        assert(!priority_ge(prios[j], prios[i as int]));
                    } else if j > i {
                        assert(!priority_gt(prios[j], prios[i as int]));
                    }
                }
            }
            can_decrypt(sources[i].source_url.as_str())
        },
    }
}

/// What to fetch for an episode's stream: the decoded links URL and the
/// name of the source that `best_source` chooses; `None` when it chooses
/// none.
pub fn stream_request(episode_response: &EpisodeResponse) -> (r: Option<StreamRequest>)
    requires
        chosen_source_decodes(*episode_response),
    ensures
        match episode_response.data.episode {
            None => r is None,
            Some(episode) => {
                let sources = episode.source_urls@;
                let prios = source_priorities(sources);
                let playable = playable_sources(sources);
                match r {
                    None => none_above_zero(prios, playable),
                    Some(request) => exists|i: int|
                        #[trigger] leads(prios, playable, i) && request.links_url@ == decrypted_link(
                            encode_utf8(sources[i].source_url@),
                        ) && request.source_name == sources[i].source_name,
                }
            },
        },
        r matches Some(request) ==> playable_name(request.source_name@),
{
    match best_source(episode_response) {
        None => None,
        Some(i) => {
            let episode = episode_response.data.episode.as_ref().unwrap();
            let source = &episode.source_urls[i];
            let ghost prios = source_priorities(episode.source_urls@);
            let ghost playable = playable_sources(episode.source_urls@);
            assert(leads(prios, playable, i as int));
            assert(playable[i as int]);
            let links_url = decrypt_allanime(source.source_url.as_str());
            Some(StreamRequest { links_url, source_name: source.source_name.clone() })
        },
    }
}

/// The priorities of a list of links; a link without one counts as `0.0`.
pub open spec fn link_priorities(links: Seq<Link>) -> Seq<u32> {
    Seq::new(
        links.len(),
        |i: int|
            match links[i].priority {
                Some(p) => p,
                None => ZERO_PRIORITY,
            },
    )
}

/// Every position of a list of the given length is eligible.
pub open spec fn all_eligible(len: nat) -> Seq<bool> {
    Seq::new(len, |i: int| true)
}

/// Position `k` holds the first link without a priority.
pub open spec fn first_unranked(links: Seq<Link>, k: int) -> bool {
    &&& 0 <= k < links.len()
    &&& links[k].priority is None
    &&& forall|j: int| 0 <= j < k ==> (#[trigger] links[j].priority) is Some
}

/// The unranked link that is streamed from is the first link without a
/// priority: every link before it has one, and no other position
/// qualifies.
pub proof fn lemma_unranked_link_comes_first(links: Seq<Link>, k: int)
    requires
        first_unranked(links, k),
    ensures
        0 <= k < links.len(),
        links[k].priority is None,
        forall|j: int| 0 <= j < k ==> (#[trigger] links[j]).priority is Some,
        forall|other: int| #[trigger] first_unranked(links, other) ==> other == k,
{
    assert forall|other: int| #[trigger] first_unranked(links, other) implies other == k by {
        if other < k {
            assert(links[other].priority is Some);
        } else if other > k {
            assert(links[k].priority is Some);
        }
    }
}

/// Among links that all carry a priority, the link streamed from has a
/// priority above `0.0` that no link exceeds and no earlier link equals;
/// when none is chosen, no link has a priority above `0.0`.
pub proof fn lemma_stream_link_is_best(links: Seq<Link>, chosen: Option<int>)
    requires
        forall|j: int| 0 <= j < links.len() ==> (#[trigger] links[j].priority) is Some,
        match chosen {
            Some(i) => leads(link_priorities(links), all_eligible(links.len()), i),
            None => none_above_zero(link_priorities(links), all_eligible(links.len())),
        },
    ensures
        chosen matches Some(i) ==> ({
            &&& 0 <= i < links.len()
            &&& links[i].priority matches Some(p) && priority_gt(p, ZERO_PRIORITY)
            &&& forall|j: int|
                0 <= j < links.len() ==> !priority_gt(
                    (#[trigger] links[j]).priority->0,
                    links[i].priority->0,
                ) && (j < i ==> !priority_ge(links[j].priority->0, links[i].priority->0))
        }),
        chosen is None ==> forall|j: int|
            0 <= j < links.len() ==> !priority_gt((#[trigger] links[j]).priority->0, ZERO_PRIORITY),
{
    let prios = link_priorities(links);
    let every = all_eligible(links.len());
    match chosen {
        Some(i) => {
            assert(links[i].priority is Some);
            assert(prios[i] == links[i].priority->0);
            assert forall|j: int|
                0 <= j < links.len() implies !priority_gt(
                    (#[trigger] links[j]).priority->0,
                    links[i].priority->0,
                ) && (j < i ==> !priority_ge(links[j].priority->0, links[i].priority->0)) by {
                assert(links[j].priority is Some);
                assert(prios[j] == links[j].priority->0);
                assert(every[j]);
                if j == i {
                    lemma_priority_strict_order(prios[i], prios[i], prios[i]);
                } else if j < i {
                    assert(!priority_ge(prios[j], prios[i]));
                } else {
                    assert(!priority_gt(prios[j], prios[i]));
                }
            }
        },
        None => {
            assert forall|j: int|
                0 <= j < links.len() implies !priority_gt((#[trigger] links[j]).priority->0, ZERO_PRIORITY) by {
                assert(links[j].priority is Some);
                assert(prios[j] == links[j].priority->0);
                assert(every[j]);
            }
        },
    }
}

/// The link to stream from a source's links: the first link that has no
/// priority, if there is one; otherwise the first link with the greatest
/// priority, which must be greater than `0.0`; otherwise `None`.
pub fn best_streaming_link(response: &ProviderLinksResponse) -> (r: Option<String>)
    ensures
        ({
            let links = response.links@;
            if exists|k: int| first_unranked(links, k) {
                exists|k: int| #[trigger] first_unranked(links, k) && r == Some(links[k].link)
            } else {
                let prios = link_priorities(links);
                let every = all_eligible(links.len());
                match r {
                    None => none_above_zero(prios, every),
                    Some(s) => exists|i: int| #[trigger] leads(prios, every, i) && s == links[i].link,
                }
            }
        }),
{
    let links = &response.links;
    let ghost prios = link_priorities(links@);
    let ghost every = all_eligible(links@.len());
    let mut best: Option<usize> = None;
    let mut priority: u32 = ZERO_PRIORITY;
    let mut idx: usize = 0;
    while idx < links.len()
        invariant
            links@ == response.links@,
            prios == link_priorities(links@),
            every == all_eligible(links@.len()),
            idx <= links@.len(),
            forall|j: int| 0 <= j < idx ==> (#[trigger] links@[j].priority) is Some,
            best is None ==> priority == ZERO_PRIORITY && forall|j: int|
                0 <= j < idx ==> !priority_gt(#[trigger] prios[j], ZERO_PRIORITY),
            best matches Some(b) ==> {
                &&& b < idx
                &&& priority == prios[b as int]
                &&& priority_gt(prios[b as int], ZERO_PRIORITY)
                &&& forall|j: int| 0 <= j < b ==> !priority_ge(#[trigger] prios[j], prios[b as int])
                &&& forall|j: int| b < j < idx ==> !priority_gt(#[trigger] prios[j], prios[b as int])
            },
        decreases links@.len() - idx,
    {
        let link = &links[idx];
        match link.priority {
            Some(p) => {
                assert(prios[idx as int] == p);
                if priority_greater(p, priority) {
                    priority = p;
                    best = Some(idx);
                }
            },
            None => {
                let found = link.link.clone();
                assert(first_unranked(links@, idx as int) && Some(found) == Some(
                    links@[idx as int].link,
                ));
                return Some(found);
            },
        }
        idx = idx + 1;
    }
    assert(forall|k: int| 0 <= k < links@.len() ==> (#[trigger] links@[k].priority) is Some);
    match best {
        None => None,
        Some(b) => {
            assert(leads(prios, every, b as int));
            Some(links[b].link.clone())
        },
    }
}

/// The GraphQL query of a show search.
pub const SEARCH_QUERY: &'static str = "query (
        $search: SearchInput
        $translationType: VaildTranslationTypeEnumType
    ) {
        shows(
            search: $search
            limit: 40
            page: 1
            translationType: $translationType
        ) {
            edges {
                _id
                name
                englishName
                availableEpisodes
                thumbnail
            }
        }
    }";

/// The GraphQL query of an episode's sources.
pub const EPISODE_QUERY: &'static str = "query ($showId: String!, $translationType: VaildTranslationTypeEnumType!, $episodeString: String!) {
        episode(
            showId: $showId
            translationType: $translationType
            episodeString: $episodeString
        ) {
            episodeString
            sourceUrls
            episodeInfo {
                notes
            }
        }
    }";

/// The provider URL that searches for shows named `show_name`.
pub open spec fn search_url_text(base_url: Seq<char>, show_name: Seq<char>) -> Seq<char> {
    base_url + "/api?variables={\"search\":{\"query\":\""@ + show_name
        + "\"},\"countryOrigin\":\"ALL\"}&query="@ + SEARCH_QUERY@
}

/// The provider URL that asks for the sources of one episode.
pub open spec fn episode_url_text(
    base_url: Seq<char>,
    show_id: Seq<char>,
    translation_type: Seq<char>,
    episode_num: Seq<char>,
) -> Seq<char> {
    base_url + "/api?variables={\"showId\":\""@ + show_id + "\",\"translationType\":\""@
        + translation_type + "\",\"episodeString\":\""@ + episode_num + "\"}&query="@
        + EPISODE_QUERY@
}

/// Builds the URL of a show search at the provider rooted at `base_url`.
pub fn search_url(base_url: &str, show_name: &str) -> (url: String)
    ensures
        url@ == search_url_text(base_url@, show_name@),
{
    let mut url = String::from_str(base_url);
    url.append("/api?variables={\"search\":{\"query\":\"");
    url.append(show_name);
    url.append("\"},\"countryOrigin\":\"ALL\"}&query=");
    url.append(SEARCH_QUERY);
    url
}

/// Builds the URL that asks the provider rooted at `base_url` for the
/// sources of an episode.
pub fn episode_url(base_url: &str, show_id: &str, translation_type: &str, episode_num: &str) -> (url: String)
    ensures
        url@ == episode_url_text(base_url@, show_id@, translation_type@, episode_num@),
{
    let mut url = String::from_str(base_url);
    url.append("/api?variables={\"showId\":\"");
    url.append(show_id);
    url.append("\",\"translationType\":\"");
    url.append(translation_type);
    url.append("\",\"episodeString\":\"");
    url.append(episode_num);
    url.append("\"}&query=");
    url.append(EPISODE_QUERY);
    url
}

} // verus!
