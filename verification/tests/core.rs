use monolith::db::resolve_game;
use monolith::models::{CacheSnapshot, GameMetadata, LaunchAvailability, UserOverride};
use monolith::navigation::{AppView, Navigator};
use monolith::sync::sync_report;

fn sample_game() -> GameMetadata {
    GameMetadata {
        game_id: 7,
        system_id: 2,
        system_name: "Dreamcast".into(),
        title: "Rayman 2".into(),
        description: "Description récoltée".into(),
        cover_art: Some("harvest.jpg".into()),
        language: "fr".into(),
        launch_availability: LaunchAvailability::default(),
    }
}

#[test]
fn user_override_takes_precedence_without_destroying_harvest_data() {
    let harvested = sample_game();
    let resolved = resolve_game(
        harvested.clone(),
        Some(UserOverride {
            user_id: 42,
            game_id: 7,
            description: Some("Ma description".into()),
            cover_art: Some("perso.png".into()),
        }),
    );
    assert_eq!(resolved.description, "Ma description");
    assert_eq!(resolved.cover_art.as_deref(), Some("perso.png"));

    assert_eq!(harvested.description, "Description récoltée");
    assert_eq!(harvested.cover_art.as_deref(), Some("harvest.jpg"));
}

#[test]
fn empty_override_fields_fall_back_to_harvest_metadata() {
    let resolved = resolve_game(
        sample_game(),
        Some(UserOverride {
            user_id: 42,
            game_id: 7,
            description: Some("Description locale".into()),
            cover_art: None,
        }),
    );
    assert_eq!(resolved.description, "Description locale");
    assert_eq!(resolved.cover_art.as_deref(), Some("harvest.jpg"));
}

#[test]
fn game_without_override_is_the_harvested_one() {
    assert_eq!(resolve_game(sample_game(), None), sample_game());
}

#[test]
fn override_keeps_every_other_harvested_field() {
    let resolved = resolve_game(
        sample_game(),
        Some(UserOverride {
            user_id: 1,
            game_id: 7,
            description: None,
            cover_art: Some("perso.png".into()),
        }),
    );
    assert_eq!(resolved.title, "Rayman 2");
    assert_eq!(resolved.system_id, 2);
    assert_eq!(resolved.description, "Description récoltée");
    assert_eq!(resolved.language, "fr");
}

#[test]
fn heart_navigation_moves_sequentially_and_can_go_back() {
    let mut nav = Navigator::default();
    assert_eq!(nav.current(), &AppView::Home);

    nav.open_systems();
    assert_eq!(nav.current(), &AppView::Systems);
    nav.open_catalog(2);
    assert_eq!(nav.current(), &AppView::Catalog { system_id: 2 });
    nav.open_details(7);
    assert_eq!(nav.current(), &AppView::Details { game_id: 7 });

    nav.back();
    assert_eq!(nav.current(), &AppView::Catalog { system_id: 2 });
}

#[test]
fn back_on_the_home_screen_stays_home() {
    let mut nav = Navigator::default();
    nav.back();
    assert_eq!(nav.current(), &AppView::Home);
}

#[test]
fn opening_the_shown_screen_twice_needs_one_back() {
    let mut nav = Navigator::default();
    nav.open_catalog(3);
    nav.open_catalog(3);
    nav.back();
    assert_eq!(nav.current(), &AppView::Home);
}

#[test]
fn home_returns_to_the_first_screen() {
    let mut nav = Navigator::default();
    nav.open_systems();
    nav.open_catalog(4);
    nav.home();
    assert_eq!(nav.current(), &AppView::Home);
}

#[test]
fn brain_refreshes_the_offline_cache_for_the_current_user() {
    let snapshot = CacheSnapshot {
        user_id: 9,
        generated_at: "2026-01-01T00:00:00Z".into(),
        games: vec![resolve_game(
            sample_game(),
            Some(UserOverride {
                user_id: 9,
                game_id: 7,
                description: Some("Synchronisée".into()),
                cover_art: None,
            }),
        )],
    };
    let report = sync_report(&snapshot, "cache.json");
    assert_eq!(report.games_written, 1);
    assert_eq!(report.cache_path, "cache.json");
    assert_eq!(snapshot.user_id, 9);
    assert_eq!(snapshot.games[0].description, "Synchronisée");
}
