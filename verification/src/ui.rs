//! What the client's screens decide: which ROMs and games to list, how availability reads,
//! and what the signed-in account may do.

use vstd::prelude::*;
use vstd::string::*;
use crate::auth::{AuthMode, Role, role_can_write};
use crate::client_auth::AuthState;
use crate::models::{GameMetadata, LaunchAvailability, RomLocation};
use crate::text::{contains, contains_text, decimal, push_decimal, spec_lowercase, to_lowercase, trim, trimmed};

verus! {

pub open spec fn linked_to(game_id: i64) -> spec_fn(RomLocation) -> bool {
    |location: RomLocation| location.game_id == Some(game_id)
}

/// The locations linked to a game, in their order.
pub fn linked_locations_for_game(locations: Vec<RomLocation>, game_id: i64) -> (r: Vec<RomLocation>)
    ensures
        r@ == locations@.filter(linked_to(game_id)),
{
    let ghost original = locations@;
    let n = locations.len();
    let mut rest = locations;
    let mut out: Vec<RomLocation> = Vec::new();
    let mut i: usize = 0;
    assert(rest@ =~= original.subrange(0, n as int));
    while i < n
        invariant
            n == original.len(),
            i <= n,
            rest@ == original.subrange(i as int, n as int),
            out@ == original.subrange(0, i as int).filter(linked_to(game_id)),
        decreases n - i,
    {
        let location = rest.remove(0);
        assert(rest@ =~= original.subrange(i + 1, n as int));
        proof {
            reveal_with_fuel(Seq::<_>::filter, 1);
            assert(original.subrange(0, i + 1).drop_last() =~= original.subrange(0, i as int));
        }
        if location.game_id == Some(game_id) {
            out.push(location);
        }
        i = i + 1;
    }
    assert(original.subrange(0, n as int) =~= original);
    out
}

/// A game that may be linked to a ROM of `system_id`, when its lower-cased title holds the
/// lower-cased, trimmed search text.
pub open spec fn candidate_for(system_id: i64, search: Seq<char>) -> spec_fn(GameMetadata) -> bool {
    |game: GameMetadata|
        game.system_id == system_id && contains_text(
            spec_lowercase(game.title@),
            spec_lowercase(trimmed(search)),
        )
}

/// The games of the ROM's system whose title matches the search, case-insensitively, in
/// their order.
pub fn association_candidates(games: Vec<GameMetadata>, system_id: i64, search: &str) -> (r: Vec<
    GameMetadata,
>)
    ensures
        r@ == games@.filter(candidate_for(system_id, search@)),
{
    let needle = to_lowercase(trim(search));
    let ghost original = games@;
    let n = games.len();
    let mut rest = games;
    let mut out: Vec<GameMetadata> = Vec::new();
    let mut i: usize = 0;
    assert(rest@ =~= original.subrange(0, n as int));
    while i < n
        invariant
            n == original.len(),
            i <= n,
            needle@ == spec_lowercase(trimmed(search@)),
            rest@ == original.subrange(i as int, n as int),
            out@ == original.subrange(0, i as int).filter(candidate_for(system_id, search@)),
        decreases n - i,
    {
        let game = rest.remove(0);
        assert(rest@ =~= original.subrange(i + 1, n as int));
        proof {
            reveal_with_fuel(Seq::<_>::filter, 1);
            assert(original.subrange(0, i + 1).drop_last() =~= original.subrange(0, i as int));
        }
        if game.system_id == system_id && contains(to_lowercase(game.title.as_str()).as_str(), needle.as_str()) {
            out.push(game);
        }
        i = i + 1;
    }
    assert(original.subrange(0, n as int) =~= original);
    out
}

/// A game shown in a system's catalog for a search: of that system, its lower-cased title
/// holding the lower-cased search text as typed.
pub open spec fn shown_in_catalog(system_id: i64, search: Seq<char>) -> spec_fn(GameMetadata) -> bool {
    |game: GameMetadata|
        game.system_id == system_id && contains_text(spec_lowercase(game.title@), spec_lowercase(search))
}

/// The games of a system's catalog that match the search, case-insensitively, in their order.
pub fn catalog_games(games: Vec<GameMetadata>, system_id: i64, search: &str) -> (r: Vec<GameMetadata>)
    ensures
        r@ == games@.filter(shown_in_catalog(system_id, search@)),
{
    let needle = to_lowercase(search);
    let ghost original = games@;
    let n = games.len();
    let mut rest = games;
    let mut out: Vec<GameMetadata> = Vec::new();
    let mut i: usize = 0;
    assert(rest@ =~= original.subrange(0, n as int));
    while i < n
        invariant
            n == original.len(),
            i <= n,
            needle@ == spec_lowercase(search@),
            rest@ == original.subrange(i as int, n as int),
            out@ == original.subrange(0, i as int).filter(shown_in_catalog(system_id, search@)),
        decreases n - i,
    {
        let game = rest.remove(0);
        assert(rest@ =~= original.subrange(i + 1, n as int));
        proof {
            reveal_with_fuel(Seq::<_>::filter, 1);
            assert(original.subrange(0, i + 1).drop_last() =~= original.subrange(0, i as int));
        }
        if game.system_id == system_id && contains(to_lowercase(game.title.as_str()).as_str(), needle.as_str()) {
            out.push(game);
        }
        i = i + 1;
    }
    assert(original.subrange(0, n as int) =~= original);
    out
}

/// The catalog search finds its text anywhere in a title: a game of the system whose
/// lower-cased title holds the lower-cased search text at some position `at` is listed,
/// and every game listed is of the system and holds that text at some position.
pub proof fn lemma_catalog_finds_text_anywhere(
    games: Seq<GameMetadata>,
    system_id: i64,
    search: Seq<char>,
    listed: Seq<GameMetadata>,
    k: int,
    at: int,
)
    requires
        listed == games.filter(shown_in_catalog(system_id, search)),
        0 <= k < games.len(),
        games[k].system_id == system_id,
        0 <= at,
        at + spec_lowercase(search).len() <= spec_lowercase(games[k].title@).len(),
        spec_lowercase(games[k].title@).subrange(at, at + spec_lowercase(search).len())
            == spec_lowercase(search),
    ensures
        listed.contains(games[k]),
        forall|j: int|
            0 <= j < listed.len() ==> #[trigger] listed[j].system_id == system_id && exists|p: int|
                0 <= p && p + spec_lowercase(search).len() <= spec_lowercase(listed[j].title@).len()
                    && #[trigger] spec_lowercase(listed[j].title@).subrange(p, p + spec_lowercase(search).len())
                    == spec_lowercase(search),
{
    let pred = shown_in_catalog(system_id, search);
    assert(crate::text::occurs_at(spec_lowercase(games[k].title@), spec_lowercase(search), at));
    assert(pred(games[k]));
    games.lemma_filter_contains(pred, k);
    assert forall|j: int| 0 <= j < listed.len() implies #[trigger] listed[j].system_id == system_id
        && exists|p: int|
        0 <= p && p + spec_lowercase(search).len() <= spec_lowercase(listed[j].title@).len()
            && #[trigger] spec_lowercase(listed[j].title@).subrange(p, p + spec_lowercase(search).len())
            == spec_lowercase(search) by {
        games.lemma_filter_pred(pred, j);
        let p = choose|p: int| crate::text::occurs_at(spec_lowercase(listed[j].title@), spec_lowercase(search), p);
        assert(crate::text::occurs_at(spec_lowercase(listed[j].title@), spec_lowercase(search), p));
    }
}

/// The association search finds its trimmed text anywhere in a title: a game of the
/// ROM's system whose lower-cased title holds the lower-cased, trimmed search text at some
/// position `at` is a candidate.
pub proof fn lemma_candidates_find_text_anywhere(
    games: Seq<GameMetadata>,
    system_id: i64,
    search: Seq<char>,
    candidates: Seq<GameMetadata>,
    k: int,
    at: int,
)
    requires
        candidates == games.filter(candidate_for(system_id, search)),
        0 <= k < games.len(),
        games[k].system_id == system_id,
        0 <= at,
        at + spec_lowercase(trimmed(search)).len() <= spec_lowercase(games[k].title@).len(),
        spec_lowercase(games[k].title@).subrange(at, at + spec_lowercase(trimmed(search)).len())
            == spec_lowercase(trimmed(search)),
    ensures
        candidates.contains(games[k]),
{
    let pred = candidate_for(system_id, search);
    assert(crate::text::occurs_at(spec_lowercase(games[k].title@), spec_lowercase(trimmed(search)), at));
    assert(pred(games[k]));
    games.lemma_filter_contains(pred, k);
}

/// An empty search keeps every game of the system.
pub proof fn lemma_empty_search_keeps_system_games(system_id: i64, search: Seq<char>, game: GameMetadata)
    requires
        trimmed(search).len() == 0,
        spec_lowercase(trimmed(search)).len() == 0,
        game.system_id == system_id,
    ensures
        candidate_for(system_id, search)(game),
{
    crate::text::lemma_empty_occurs(spec_lowercase(game.title@), spec_lowercase(trimmed(search)));
}

pub open spec fn available_label_text(count: nat) -> Seq<char> {
    "Disponible · "@ + decimal(count) + " emplacement"@ + (if count > 1 { "s"@ } else { ""@ })
}

pub open spec fn availability_label_text(a: LaunchAvailability) -> Seq<char> {
    if a.available {
        available_label_text(a.location_count as nat)
    } else {
        "Absent de la bibliothèque"@
    }
}

/// How the client reads a game's availability.
pub fn availability_label(availability: &LaunchAvailability) -> (r: String)
    ensures
        r@ == availability_label_text(*availability),
{
    if availability.available {
        let mut s = String::from_str("Disponible · ");
        push_decimal(&mut s, availability.location_count);
        s.append(" emplacement");
        if availability.location_count > 1 {
            s.append("s");
        } else {
            s.append("");
        }
        s
    } else {
        String::from_str("Absent de la bibliothèque")
    }
}

/// The trimmed text, or nothing when it is blank.
pub fn non_empty(value: &str) -> (r: Option<String>)
    ensures
        trimmed(value@).len() == 0 ==> r is None,
        trimmed(value@).len() > 0 ==> (r matches Some(s) && s@ == trimmed(value@)),
{
    let t = trim(value);
    if t.unicode_len() == 0 {
        None
    } else {
        Some(String::from_str(t))
    }
}

/// The profile whose catalog is shown: the session's user, or the offline profile.
pub fn active_user_id(state: &AuthState) -> (r: Option<i64>)
    ensures
        r == (match *state {
            AuthState::Authenticated(session) => Some(session.user_id),
            AuthState::Offline { user_id } => Some(user_id),
            _ => None,
        }),
{
    match state {
        AuthState::Authenticated(session) => Some(session.user_id),
        AuthState::Offline { user_id } => Some(*user_id),
        _ => None,
    }
}

/// Only a signed-in administrator manages ROM associations.
pub fn can_manage_associations(state: &AuthState) -> (r: bool)
    ensures
        r == (*state matches AuthState::Authenticated(session) && session.role == Role::Admin),
{
    match state {
        AuthState::Authenticated(session) => match session.role {
            Role::Admin => true,
            _ => false,
        },
        _ => false,
    }
}

/// Only a signed-in account that may write scans the library.
pub fn can_scan_library(state: &AuthState) -> (r: bool)
    ensures
        r == (*state matches AuthState::Authenticated(session) && role_can_write(session.role)),
{
    match state {
        AuthState::Authenticated(session) => session.role.can_write(),
        _ => false,
    }
}

/// A signed-in account that may write, or the offline profile, edits its metadata.
pub fn can_edit(state: &AuthState) -> (r: bool)
    ensures
        r == (match *state {
            AuthState::Authenticated(session) => role_can_write(session.role),
            AuthState::Offline { .. } => true,
            _ => false,
        }),
{
    match state {
        AuthState::Authenticated(session) => session.role.can_write(),
        AuthState::Offline { .. } => true,
        _ => false,
    }
}

/// The sign-in methods that the detected policy offers: local, then SSO.
pub fn login_methods(mode: Option<AuthMode>) -> (r: (bool, bool))
    ensures
        r.0 == (mode == Some(AuthMode::Local) || mode == Some(AuthMode::Hybrid)),
        r.1 == (mode == Some(AuthMode::Sso) || mode == Some(AuthMode::Hybrid)),
{
    match mode {
        Some(AuthMode::Local) => (true, false),
        Some(AuthMode::Sso) => (false, true),
        Some(AuthMode::Hybrid) => (true, true),
        None => (false, false),
    }
}

} // verus!
