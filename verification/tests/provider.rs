use animewatch::provider::priority::{priority_greater, ZERO_PRIORITY};
use animewatch::provider::responses::episode_response::{
    Data, Episode, EpisodeInfo, EpisodeResponse, Source,
};
use animewatch::provider::responses::provider_links_response::{Link, ProviderLinksResponse};
use animewatch::provider::scraper::{
    best_source, best_streaming_link, can_decrypt, can_stream, decrypt_allanime, episode_url,
    search_url, stream_request, StreamRequest, EPISODE_QUERY, SEARCH_QUERY,
};
use animewatch::routes::api::{episode_result, EpisodeResult};

fn source(name: &str, priority: f32) -> Source {
    Source {
        source_url: format!("--{}", name),
        priority: priority.to_bits(),
        source_name: name.to_string(),
    }
}

fn episode_with(sources: Vec<Source>) -> EpisodeResponse {
    EpisodeResponse {
        data: Data {
            episode: Some(Episode {
                episode_string: "1".to_string(),
                source_urls: sources,
                episode_info: EpisodeInfo { notes: "The Apocalypse".to_string() },
            }),
        },
    }
}

fn link(url: &str, priority: Option<f32>) -> Link {
    Link { link: url.to_string(), priority: priority.map(|p| p.to_bits()) }
}

#[test]
fn priority_compares_like_f32() {
    assert!(priority_greater(7.7f32.to_bits(), 0.0f32.to_bits()));
    assert!(!priority_greater(0.0f32.to_bits(), 7.7f32.to_bits()));
    assert!(priority_greater(0.5f32.to_bits(), (-1.0f32).to_bits()));
    assert!(!priority_greater((-1.0f32).to_bits(), 0.5f32.to_bits()));
    assert!(priority_greater((-1.0f32).to_bits(), (-2.0f32).to_bits()));
    assert!(!priority_greater((-0.0f32).to_bits(), 0.0f32.to_bits()));
    assert!(!priority_greater(0.0f32.to_bits(), (-0.0f32).to_bits()));
    assert!(!priority_greater(f32::NAN.to_bits(), 0.0f32.to_bits()));
    assert!(!priority_greater(1.0f32.to_bits(), f32::NAN.to_bits()));
    assert!(priority_greater(f32::INFINITY.to_bits(), f32::MAX.to_bits()));
    assert_eq!(ZERO_PRIORITY, 0.0f32.to_bits());
}

#[test]
fn priority_order_is_strict() {
    let values = [-3.5f32, -0.0, 0.0, 1.0, 7.7, 8.5, f32::INFINITY];
    for a in values {
        assert!(!priority_greater(a.to_bits(), a.to_bits()));
        for b in values {
            assert_eq!(priority_greater(a.to_bits(), b.to_bits()), a > b);
        }
    }
}

#[test]
fn decrypt_rewrites_clock_path() {
    let url = "--175948514e4c4f57175b54575b5307515c05595a5b090a0b";
    assert!(can_decrypt(url));
    assert_eq!(
        decrypt_allanime(url),
        "https://allanime.day/apivtwo/clock.json?id=abc123"
    );
}

#[test]
fn decrypt_keeps_other_links() {
    let url = "#-504C4C484B0217175D40595548545D16574A5F174E1655480C";
    assert!(can_decrypt(url));
    assert_eq!(decrypt_allanime(url), "https://example.org/v.mp4");
}

#[test]
fn decrypt_of_empty_hex_is_empty() {
    assert!(can_decrypt("--"));
    assert_eq!(decrypt_allanime("--"), "");
}

#[test]
fn decrypt_leaves_no_clock_path() {
    // "/apivtwo/clock?id=/apivtwo/clock?id=x", masked and hex-encoded.
    let plain = "/apivtwo/clock?id=/apivtwo/clock?id=x";
    let hex: String = plain.bytes().map(|b| format!("{:02x}", b ^ 56)).collect();
    let link = decrypt_allanime(&format!("--{}", hex));
    assert!(!link.contains("/apivtwo/clock?id="));
    assert_eq!(
        link,
        "https://allanime.day/apivtwo/clock.json?id=https://allanime.day/apivtwo/clock.json?id=x"
    );
}

#[test]
fn undecodable_urls_are_recognised() {
    assert!(!can_decrypt(""));
    assert!(!can_decrypt("-"));
    assert!(!can_decrypt("--1"));
    assert!(!can_decrypt("--zz"));
    assert!(!can_decrypt("--0g"));
    assert!(!can_decrypt("--é0"));
}

#[test]
fn best_source_takes_greatest_playable() {
    let response = episode_with(vec![
        source("Sak", 5.0),
        source("Yt-mp4", 9.0),
        source("Default", 7.7),
        source("Luf-mp4", 7.7),
        source("S-mp4", 8.0),
    ]);
    assert_eq!(best_source(&response), Some(2));
}

#[test]
fn best_source_ignores_nonpositive_priorities() {
    let response = episode_with(vec![source("Sak", 0.0), source("Default", -1.0)]);
    assert_eq!(best_source(&response), None);
}

#[test]
fn best_source_without_episode_is_none() {
    let response = EpisodeResponse { data: Data { episode: None } };
    assert_eq!(best_source(&response), None);
}

#[test]
fn best_source_without_playable_source_is_none() {
    let response = episode_with(vec![source("Yt-mp4", 9.0), source("default", 3.0)]);
    assert_eq!(best_source(&response), None);
}

#[test]
fn best_link_prefers_unranked_link() {
    let response = ProviderLinksResponse {
        links: vec![
            link("https://a/1.m3u8", Some(3.0)),
            link("https://a/2.m3u8", None),
            link("https://a/3.m3u8", None),
        ],
    };
    assert_eq!(best_streaming_link(&response), Some("https://a/2.m3u8".to_string()));
}

#[test]
fn best_link_takes_first_greatest_priority() {
    let response = ProviderLinksResponse {
        links: vec![
            link("https://a/1.m3u8", Some(3.0)),
            link("https://a/2.m3u8", Some(8.0)),
            link("https://a/3.m3u8", Some(8.0)),
            link("https://a/4.m3u8", Some(-9.0)),
        ],
    };
    assert_eq!(best_streaming_link(&response), Some("https://a/2.m3u8".to_string()));
}

#[test]
fn best_link_of_unprioritised_zero_links_is_none() {
    let response = ProviderLinksResponse { links: vec![link("https://a/1.m3u8", Some(0.0))] };
    assert_eq!(best_streaming_link(&response), None);
    let empty = ProviderLinksResponse { links: vec![] };
    assert_eq!(best_streaming_link(&empty), None);
}

#[test]
fn search_url_matches_format() {
    let url = search_url("https://api.allanime.day", "naruto");
    let expected = format!(
        "https://api.allanime.day/api?variables={{\"search\":{{\"query\":\"naruto\"}},\"countryOrigin\":\"ALL\"}}&query={}",
        SEARCH_QUERY
    );
    assert_eq!(url, expected);
    assert!(SEARCH_QUERY.starts_with("query (\n        $search: SearchInput"));
}

#[test]
fn episode_url_matches_format() {
    let url = episode_url("https://api.allanime.day", "vkD8H5e7HsG2jctw9", "sub", "1");
    let expected = format!(
        "https://api.allanime.day/api?variables={}&query={}",
        r#"{"showId":"vkD8H5e7HsG2jctw9","translationType":"sub","episodeString":"1"}"#,
        EPISODE_QUERY
    );
    assert_eq!(url, expected);
    assert!(EPISODE_QUERY.starts_with("query ($showId: String!"));
}

#[test]
fn stream_request_decodes_chosen_source() {
    let mut chosen = source("Default", 7.7);
    chosen.source_url = "--175948514e4c4f57175b54575b5307515c05595a5b090a0b".to_string();
    let response = episode_with(vec![source("Sak", 5.0), chosen, source("Yt-mp4", 9.0)]);
    assert!(can_stream(&response));
    assert_eq!(
        stream_request(&response),
        Some(StreamRequest {
            links_url: "https://allanime.day/apivtwo/clock.json?id=abc123".to_string(),
            source_name: "Default".to_string(),
        })
    );
}

#[test]
fn stream_request_without_source_is_none() {
    let response = episode_with(vec![source("Yt-mp4", 9.0)]);
    assert!(can_stream(&response));
    assert_eq!(stream_request(&response), None);
    let missing = EpisodeResponse { data: Data { episode: None } };
    assert!(can_stream(&missing));
    assert_eq!(stream_request(&missing), None);
}

#[test]
fn stream_needs_a_decodable_chosen_source() {
    // "--Sak" is not hexadecimal after its first two bytes.
    let response = episode_with(vec![source("Sak", 5.0)]);
    assert!(!can_stream(&response));
}

#[test]
fn episode_result_pairs_link_with_name() {
    let request = StreamRequest { links_url: "u".to_string(), source_name: "Sak".to_string() };
    assert_eq!(
        episode_result(Some(request), Some("https://a/1.m3u8".to_string())),
        EpisodeResult {
            streaming_url: Some("https://a/1.m3u8".to_string()),
            source_name: Some("Sak".to_string())
        }
    );
    let request = StreamRequest { links_url: "u".to_string(), source_name: "Sak".to_string() };
    assert_eq!(
        episode_result(Some(request), None),
        EpisodeResult { streaming_url: None, source_name: Some("Sak".to_string()) }
    );
    assert_eq!(
        episode_result(None, Some("ignored".to_string())),
        EpisodeResult { streaming_url: None, source_name: None }
    );
}
