use animewatch::models::sea_orm_active_enums::TranslationType;
use animewatch::models::shows::Model;
use animewatch::provider::responses::search_response::{
    AvailableEpisodes, Edges, SearchResponse, Show, Shows,
};
use animewatch::routes::api::{show_results, ShowResult, PROVIDER_BASE_URL};
use animewatch::routes::list::{
    addition_response, listed_shows, removal_response, show_for_list, SHOW_NOT_IN_DATABASE,
};
use animewatch::routes::refusal::ErrorResponse;
use animewatch::routes::shows::{show_response, SHOW_NOT_FOUND};

fn show(id: &str, name: &str, english: Option<&str>, sub: u32, dub: u32) -> Show {
    Show {
        id: id.to_string(),
        name: name.to_string(),
        english_name: english.map(|e| e.to_string()),
        available_episodes: AvailableEpisodes { sub, dub, raw: 0 },
        image_url: format!("https://img/{}.jpg", id),
    }
}

fn result(id: &str, name: &str, tt: TranslationType, episodes: u32) -> ShowResult {
    ShowResult {
        show_id: id.to_string(),
        name: name.to_string(),
        translation_type: tt,
        episodes,
        image_url: format!("https://img/{}.jpg", id),
    }
}

fn model(id: i32, show_id: &str) -> Model {
    Model {
        id,
        show_id: show_id.to_string(),
        translation_type: TranslationType::Sub,
        name: format!("Show {}", id),
        image_url: String::new(),
    }
}

#[test]
fn search_offers_dub_then_sub() {
    let response = SearchResponse {
        data: Shows {
            shows: Edges {
                edges: vec![
                    show("vkD8H5e7HsG2jctw9", "Boruto: Naruto Next Generations",
                        Some("Boruto: Naruto Next Generations"), 293, 255),
                    show("a1", "Kimetsu no Yaiba", Some("Demon Slayer"), 26, 0),
                    show("b2", "Raw Only", None, 0, 12),
                    show("c3", "Dub Only", Some("Dubbed"), 0, 4),
                ],
            },
        },
    };
    assert_eq!(
        show_results(&response),
        vec![
            result("vkD8H5e7HsG2jctw9", "Boruto: Naruto Next Generations", TranslationType::Dub, 255),
            result("vkD8H5e7HsG2jctw9", "Boruto: Naruto Next Generations", TranslationType::Sub, 293),
            result("a1", "Kimetsu no Yaiba", TranslationType::Sub, 26),
            result("c3", "Dubbed", TranslationType::Dub, 4),
        ]
    );
}

#[test]
fn search_entries_offer_episodes() {
    let response = SearchResponse {
        data: Shows {
            shows: Edges {
                edges: vec![show("x", "X", Some("Ex"), 0, 0), show("y", "Y", None, 1, 1)],
            },
        },
    };
    let results = show_results(&response);
    assert!(results.len() <= 2 * 2);
    assert!(results.iter().all(|r| r.episodes > 0));
    assert_eq!(results, vec![result("y", "Y", TranslationType::Sub, 1)]);
}

#[test]
fn provider_base_url() {
    assert_eq!(PROVIDER_BASE_URL, "https://api.allanime.day");
}

#[test]
fn list_takes_first_related_show() {
    let rows = vec![vec![model(3, "a"), model(9, "z")], vec![model(4, "b")]];
    assert_eq!(listed_shows(Ok(rows)), Ok(vec![model(3, "a"), model(4, "b")]));
    assert_eq!(listed_shows(Ok(vec![])), Ok(vec![]));
}

#[test]
fn list_query_error_is_server_error() {
    assert_eq!(
        listed_shows(Err("connection lost".to_string())),
        Err(ErrorResponse { status: 500, message: "connection lost".to_string() })
    );
}

#[test]
fn list_add_refuses_missing_show() {
    assert_eq!(
        show_for_list(Ok(None)),
        Err(ErrorResponse { status: 400, message: "this show is not in the database".to_string() })
    );
    assert_eq!(SHOW_NOT_IN_DATABASE, "this show is not in the database");
    assert_eq!(
        show_for_list(Err("db down".to_string())),
        Err(ErrorResponse { status: 500, message: "db down".to_string() })
    );
    assert_eq!(show_for_list(Ok(Some(model(1, "a")))), Ok(model(1, "a")));
}

#[test]
fn list_removal_answers() {
    assert_eq!(removal_response(Ok(())), Ok(204));
    assert_eq!(
        removal_response(Err("locked".to_string())),
        Err(ErrorResponse { status: 500, message: "locked".to_string() })
    );
}

#[test]
fn show_lookup_answers() {
    assert_eq!(
        show_response(Ok(None)),
        Err(ErrorResponse { status: 500, message: "show not found".to_string() })
    );
    assert_eq!(SHOW_NOT_FOUND, "show not found");
    assert_eq!(
        show_response(Err("timeout".to_string())),
        Err(ErrorResponse { status: 500, message: "timeout".to_string() })
    );
    assert_eq!(show_response(Ok(Some(model(2, "b")))), Ok(model(2, "b")));
}

#[test]
fn list_addition_answers_the_show() {
    assert_eq!(addition_response(model(5, "e"), Ok(())), model(5, "e"));
    assert_eq!(addition_response(model(5, "e"), Err("duplicate key".to_string())), model(5, "e"));
}
