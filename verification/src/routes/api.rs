//! The public API routes: show search and episode lookup.
use vstd::prelude::*;
use crate::models::sea_orm_active_enums::TranslationType;
use crate::provider::responses::search_response::{SearchResponse, Show};
use crate::provider::scraper::{playable_name, StreamRequest};

verus! {

/// The provider that searches and episodes are asked of.
pub const PROVIDER_BASE_URL: &'static str = "https://api.allanime.day";

/// The query string of `/api/search` (`?q=...`).
#[derive(Debug, PartialEq, Eq)]
pub struct SearchQuery {
    pub query: String,
}

/// One entry of a search's answer: a show, dubbed or subtitled.
#[derive(Debug, PartialEq, Eq)]
pub struct ShowResult {
    pub show_id: String,
    pub name: String,
    pub translation_type: TranslationType,
    pub episodes: u32,
    pub image_url: String,
}

/// The query string of `/api/episode`.
#[derive(Debug, PartialEq, Eq)]
pub struct EpisodeQuery {
    pub show_id: String,
    pub translation_type: String,
    pub episode_num: String,
}

/// The answer of `/api/episode`.
#[derive(Debug, PartialEq, Eq)]
pub struct EpisodeResult {
    pub streaming_url: Option<String>,
    pub source_name: Option<String>,
}

/// The dubbed entry of a show: offered when the show has an English name
/// and at least one dubbed episode, under that English name.
pub open spec fn dub_entry(show: Show) -> Seq<ShowResult> {
    if show.english_name is Some && show.available_episodes.dub > 0 {
        seq![
            ShowResult {
                show_id: show.id,
                name: show.english_name->0,
                translation_type: TranslationType::Dub,
                episodes: show.available_episodes.dub,
                image_url: show.image_url,
            },
        ]
    } else {
        Seq::empty()
    }
}

/// The subtitled entry of a show: offered when the show has at least one
/// subtitled episode, under its own name.
pub open spec fn sub_entry(show: Show) -> Seq<ShowResult> {
    if show.available_episodes.sub > 0 {
        seq![
            ShowResult {
                show_id: show.id,
                name: show.name,
                translation_type: TranslationType::Sub,
                episodes: show.available_episodes.sub,
                image_url: show.image_url,
            },
        ]
    } else {
        Seq::empty()
    }
}

/// The entries of one show: the dubbed one first, then the subtitled one.
pub open spec fn show_entries(show: Show) -> Seq<ShowResult> {
    dub_entry(show) + sub_entry(show)
}

/// The entries of a list of shows, show after show.
pub open spec fn search_entries(shows: Seq<Show>) -> Seq<ShowResult>
    decreases shows.len(),
{
    if shows.len() == 0 {
        Seq::empty()
    } else {
        search_entries(shows.drop_last()) + show_entries(shows.last())
    }
}

/// The answer of a search: every show's entries, in the provider's order.
pub fn show_results(search_response: &SearchResponse) -> (results: Vec<ShowResult>)
    ensures
        results@ == search_entries(search_response.data.shows.edges@),
{
    let shows = &search_response.data.shows.edges;
    let mut results: Vec<ShowResult> = Vec::new();
    let mut i: usize = 0;
    while i < shows.len()
        invariant
            shows@ == search_response.data.shows.edges@,
            i <= shows@.len(),
            results@ == search_entries(shows@.take(i as int)),
        decreases shows@.len() - i,
    {
        let show = &shows[i];
        let ghost before = results@;
        if let Some(english_name) = &show.english_name {
            if show.available_episodes.dub > 0 {
                results.push(
                    ShowResult {
                        show_id: show.id.clone(),
                        name: english_name.clone(),
                        translation_type: TranslationType::Dub,
                        episodes: show.available_episodes.dub,
                        image_url: show.image_url.clone(),
                    },
                );
            }
        }
        assert(results@ =~= before + dub_entry(*show));
        if show.available_episodes.sub > 0 {
            results.push(
                ShowResult {
                    show_id: show.id.clone(),
                    name: show.name.clone(),
                    translation_type: TranslationType::Sub,
                    episodes: show.available_episodes.sub,
                    image_url: show.image_url.clone(),
                },
            );
        }
        assert(results@ =~= before + show_entries(*show));
        assert(shows@.take(i + 1).drop_last() =~= shows@.take(i as int));
        i = i + 1;
    }
    assert(shows@.take(i as int) =~= shows@);
    results
}

/// Every entry of a search's answer offers at least one episode, and a
/// search yields at most two entries per show.
pub proof fn lemma_entries_offer_episodes(shows: Seq<Show>)
    ensures
        search_entries(shows).len() <= 2 * shows.len(),
        forall|k: int|
            0 <= k < search_entries(shows).len() ==> #[trigger] search_entries(shows)[k].episodes > 0,
    decreases shows.len(),
{
    if shows.len() > 0 {
        lemma_entries_offer_episodes(shows.drop_last());
        let before = search_entries(shows.drop_last());
        let last = show_entries(shows.last());
        assert forall|k: int|
            0 <= k < search_entries(shows).len() implies #[trigger] search_entries(shows)[k].episodes
            > 0 by {
            if k >= before.len() {
                assert(search_entries(shows)[k] == last[k - before.len()]);
            } else {
                assert(search_entries(shows)[k] == before[k]);
            }
        }
    }
}

/// Every entry of a search's answer comes from a show of the search with
/// the same id and picture: a dubbed entry is named by that show's English
/// name and counts its dubbed episodes, a subtitled entry is named by the
/// show's own name and counts its subtitled episodes.
pub proof fn lemma_entries_named_by_their_shows(shows: Seq<Show>)
    ensures
        forall|k: int|
            0 <= k < search_entries(shows).len() ==> {
                let e = #[trigger] search_entries(shows)[k];
                &&& e.translation_type == TranslationType::Dub ==> exists|j: int|
                    0 <= j < shows.len() && (#[trigger] shows[j]).id == e.show_id
                        && shows[j].english_name == Some(e.name) && shows[j].available_episodes.dub
                        == e.episodes && shows[j].image_url == e.image_url
                &&& e.translation_type == TranslationType::Sub ==> exists|j: int|
                    0 <= j < shows.len() && (#[trigger] shows[j]).id == e.show_id && shows[j].name
                        == e.name && shows[j].available_episodes.sub == e.episodes
                        && shows[j].image_url == e.image_url
            },
    decreases shows.len(),
{
    if shows.len() > 0 {
        let init = shows.drop_last();
        lemma_entries_named_by_their_shows(init);
        let before = search_entries(init);
        let last = show_entries(shows.last());
        let n = (shows.len() - 1) as int;
        assert forall|k: int| 0 <= k < search_entries(shows).len() implies {
            let e = #[trigger] search_entries(shows)[k];
            &&& e.translation_type == TranslationType::Dub ==> exists|j: int|
                0 <= j < shows.len() && (#[trigger] shows[j]).id == e.show_id
                    && shows[j].english_name == Some(e.name) && shows[j].available_episodes.dub
                    == e.episodes && shows[j].image_url == e.image_url
            &&& e.translation_type == TranslationType::Sub ==> exists|j: int|
                0 <= j < shows.len() && (#[trigger] shows[j]).id == e.show_id && shows[j].name
                    == e.name && shows[j].available_episodes.sub == e.episodes
                    && shows[j].image_url == e.image_url
        } by {
            let e = search_entries(shows)[k];
            if k < before.len() {
                assert(e == before[k]);
                let b = before[k];
                if b.translation_type == TranslationType::Dub {
                    let j = choose|j: int|
                        0 <= j < init.len() && (#[trigger] init[j]).id == b.show_id
                            && init[j].english_name == Some(b.name) && init[j].available_episodes.dub
                            == b.episodes && init[j].image_url == b.image_url;
                    assert(shows[j] == init[j]);
                } else {
                    let j = choose|j: int|
                        0 <= j < init.len() && (#[trigger] init[j]).id == b.show_id && init[j].name
                            == b.name && init[j].available_episodes.sub == b.episodes
                            && init[j].image_url == b.image_url;
                    assert(shows[j] == init[j]);
                }
            } else {
                assert(e == last[k - before.len()]);
                assert(shows[n] == shows.last());
            }
        }
    }
}

/// No offered release of a show is left out of a search's answer: a show
/// with an English name and dubbed episodes has a dubbed entry under that
/// name, and a show with subtitled episodes has a subtitled entry under its
/// own name, each counting those episodes.
pub proof fn lemma_every_release_is_offered(shows: Seq<Show>)
    ensures
        forall|j: int|
            0 <= j < shows.len() && (#[trigger] shows[j]).english_name is Some
                && shows[j].available_episodes.dub > 0 ==> exists|k: int|
                0 <= k < search_entries(shows).len() && {
                    let e = #[trigger] search_entries(shows)[k];
                    &&& e.translation_type == TranslationType::Dub
                    &&& e.show_id == shows[j].id
                    &&& Some(e.name) == shows[j].english_name
                    &&& e.episodes == shows[j].available_episodes.dub
                },
        forall|j: int|
            0 <= j < shows.len() && (#[trigger] shows[j]).available_episodes.sub > 0 ==> exists|k: int|
                0 <= k < search_entries(shows).len() && {
                    let e = #[trigger] search_entries(shows)[k];
                    &&& e.translation_type == TranslationType::Sub
                    &&& e.show_id == shows[j].id
                    &&& e.name == shows[j].name
                    &&& e.episodes == shows[j].available_episodes.sub
                },
    decreases shows.len(),
{
    if shows.len() > 0 {
        let init = shows.drop_last();
        lemma_every_release_is_offered(init);
        let before = search_entries(init);
        let last = shows.last();
        let all = search_entries(shows);
        assert(all == before + show_entries(last));
        assert forall|j: int|
            0 <= j < shows.len() && (#[trigger] shows[j]).english_name is Some
                && shows[j].available_episodes.dub > 0 implies exists|k: int|
                0 <= k < all.len() && {
                    let e = #[trigger] all[k];
                    &&& e.translation_type == TranslationType::Dub
                    &&& e.show_id == shows[j].id
                    &&& Some(e.name) == shows[j].english_name
                    &&& e.episodes == shows[j].available_episodes.dub
                } by {
            if j < init.len() {
                assert(shows[j] == init[j]);
                let k = choose|k: int|
                    0 <= k < before.len() && {
                        let e = #[trigger] before[k];
                        &&& e.translation_type == TranslationType::Dub
                        &&& e.show_id == init[j].id
                        &&& Some(e.name) == init[j].english_name
                        &&& e.episodes == init[j].available_episodes.dub
                    };
                assert(all[k] == before[k]);
            } else {
                assert(shows[j] == last);
                assert(all[before.len() as int] == show_entries(last)[0]);
            }
        }
        assert forall|j: int|
            0 <= j < shows.len() && (#[trigger] shows[j]).available_episodes.sub > 0 implies exists|k: int|
                0 <= k < all.len() && {
                    let e = #[trigger] all[k];
                    &&& e.translation_type == TranslationType::Sub
                    &&& e.show_id == shows[j].id
                    &&& e.name == shows[j].name
                    &&& e.episodes == shows[j].available_episodes.sub
                } by {
            if j < init.len() {
                assert(shows[j] == init[j]);
                let k = choose|k: int|
                    0 <= k < before.len() && {
                        let e = #[trigger] before[k];
                        &&& e.translation_type == TranslationType::Sub
                        &&& e.show_id == init[j].id
                        &&& e.name == init[j].name
                        &&& e.episodes == init[j].available_episodes.sub
                    };
                assert(all[k] == before[k]);
            } else {
                assert(shows[j] == last);
                let d = dub_entry(last).len() as int;
                assert(all[before.len() + d] == show_entries(last)[d]);
            }
        }
    }
}

/// The answer of `/api/episode` for what `stream_request` asked for and
/// the link that the links URL yielded: both absent when no source was
/// chosen; otherwise the link, paired with the chosen source's name.
pub open spec fn episode_answer(
    request: Option<StreamRequest>,
    streaming_url: Option<String>,
    result: EpisodeResult,
) -> bool {
    match request {
        None => result.streaming_url is None && result.source_name is None,
        Some(request) => result.streaming_url == streaming_url && result.source_name == Some(
            request.source_name,
        ),
    }
}

/// Builds the answer of `/api/episode`.
pub fn episode_result(request: Option<StreamRequest>, streaming_url: Option<String>) -> (r: EpisodeResult)
    ensures
        episode_answer(request, streaming_url, r),
{
    match request {
        None => EpisodeResult { streaming_url: None, source_name: None },
        Some(request) => EpisodeResult { streaming_url, source_name: Some(request.source_name) },
    }
}

/// An episode's answer never carries a streaming URL without a source
/// name, and the name is one of the playable sources'.
pub proof fn lemma_url_comes_with_source_name(
    request: Option<StreamRequest>,
    streaming_url: Option<String>,
    result: EpisodeResult,
)
    requires
        episode_answer(request, streaming_url, result),
        request matches Some(q) ==> playable_name(q.source_name@),
    ensures
        result.streaming_url is Some ==> result.source_name is Some,
        result.source_name matches Some(name) ==> playable_name(name@),
{
}

} // verus!
