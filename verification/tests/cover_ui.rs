use monolith::cover::{cover_uri, CoverError};

#[test]
fn remote_cover_url_is_kept_for_the_http_loader() {
    assert_eq!(
        cover_uri("https://media.example/cover.webp", None).unwrap(),
        Some("https://media.example/cover.webp".into())
    );
}

#[test]
fn local_cover_path_becomes_an_absolute_file_uri() {
    let cover = "/srv/covers/jaquette française.png";
    assert_eq!(
        cover_uri(cover, None).unwrap(),
        Some(format!("file://{}", cover))
    );
}

#[test]
fn relative_cover_path_is_resolved_against_the_current_directory() {
    assert_eq!(
        cover_uri("  jaquette.png ", Some("/home/joueur")).unwrap(),
        Some("file:///home/joueur/jaquette.png".into())
    );
}

#[test]
fn relative_cover_path_without_a_current_directory_is_an_error() {
    assert_eq!(
        cover_uri("jaquette.png", None),
        Err(CoverError::CurrentDirectoryUnavailable)
    );
    assert_eq!(
        CoverError::CurrentDirectoryUnavailable.message(),
        "répertoire courant inaccessible"
    );
}

#[test]
fn empty_cover_reference_has_no_image_source() {
    assert_eq!(cover_uri("   ", None).unwrap(), None);
}

#[test]
fn file_uri_is_kept_trimmed() {
    assert_eq!(
        cover_uri(" file:///a/b.png ", None).unwrap(),
        Some("file:///a/b.png".into())
    );
}
