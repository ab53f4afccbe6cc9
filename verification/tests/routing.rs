use axum_spa::routes::{asset_request_path, classify, str_eq, str_has_prefix, Route};

#[test]
fn health_path_routes_to_health() {
    assert_eq!(classify("/api/healthchecker"), Route::Health);
}

#[test]
fn asset_paths_route_to_asset() {
    assert_eq!(classify("/assets/app.js"), Route::Asset);
    assert_eq!(classify("/assets/css/style.css"), Route::Asset);
    assert_eq!(classify("/assets"), Route::Asset);
    assert_eq!(classify("/assets/"), Route::Asset);
}

#[test]
fn unmatched_paths_route_to_fallback() {
    assert_eq!(classify("/"), Route::Fallback);
    assert_eq!(classify(""), Route::Fallback);
    assert_eq!(classify("/does/not/exist.xyz"), Route::Fallback);
    assert_eq!(classify("/api/healthchecker/"), Route::Fallback);
    assert_eq!(classify("/api/healthcheck"), Route::Fallback);
    assert_eq!(classify("/asset"), Route::Fallback);
    assert_eq!(classify("/assetsx"), Route::Fallback);
    assert_eq!(classify("/index.html"), Route::Fallback);
}

#[test]
fn asset_request_path_strips_the_mount_point() {
    assert_eq!(asset_request_path("/assets/app.js"), Some("/app.js"));
    assert_eq!(asset_request_path("/assets/css/style.css"), Some("/css/style.css"));
    assert_eq!(asset_request_path("/assets/"), Some("/"));
    assert_eq!(asset_request_path("/assets"), Some("/"));
}

#[test]
fn asset_request_path_rejects_other_routes() {
    assert_eq!(asset_request_path("/api/healthchecker"), None);
    assert_eq!(asset_request_path("/"), None);
    assert_eq!(asset_request_path("/assetsx"), None);
    assert_eq!(asset_request_path("/index.html"), None);
}

#[test]
fn string_comparison_helpers() {
    assert!(str_eq("", ""));
    assert!(str_eq("/assets", "/assets"));
    assert!(!str_eq("/assets", "/asset"));
    assert!(!str_eq("/asset", "/assets"));
    assert!(!str_eq("/assets", "/assetz"));
    assert!(str_has_prefix("/assets/app.js", "/assets/"));
    assert!(str_has_prefix("/assets/", "/assets/"));
    assert!(!str_has_prefix("/assets", "/assets/"));
    assert!(!str_has_prefix("/asxets/app.js", "/assets/"));
    assert!(str_has_prefix("anything", ""));
}

#[test]
fn repeated_classification_is_identical() {
    let first = classify("/some/client/route");
    for _ in 0..16 {
        assert_eq!(classify("/some/client/route"), first);
    }
}
