//! Resource decoding: the rename table, required fields, optional fields
//! with an explicit absent marker, and the decode-versus-transport error
//! distinction.

use gfycat::api::Api;
use gfycat::error::{ApiError, DecodeError};

fn client() -> Api {
    let body = r#"{"token_type":"bearer","expires_in":3600,"access_token":"tok123"}"#;
    Api::new(body, 0).expect("grant must decode")
}

const MEDIA_FULL: &str = r##"{"gfyItem":{
    "gfyId":"xyz","gfyName":"Xyz","gfyNumber":"6742951",
    "webmUrl":"https://e.example/x.webm","gifUrl":"https://e.example/x.gif",
    "mobileUrl":"https://e.example/x-mobile.mp4",
    "mobilePosterUrl":"https://e.example/x-mobile.jpg",
    "miniUrl":"https://e.example/x-mini.mp4",
    "posterUrl":"https://e.example/x-poster.jpg",
    "thumb100PosterUrl":"https://e.example/x-thumb.jpg",
    "max5mbGif":"https://e.example/x-5mb.gif",
    "max2mbGif":"https://e.example/x-2mb.gif",
    "max1mbGif":"https://e.example/x-1mb.gif",
    "gif100px":"https://e.example/x-100px.gif",
    "width":1920,"height":1080,"avgColor":"#252A28",
    "frameRate":30.03003,"numFrames":200.0,
    "mp4Size":14234971,"webmSize":2329134,"gifSize":910232,
    "source":1,"createDate":1561075293,"nsfw":"0",
    "mp4Url":"https://e.example/x.mp4","likes":"1","published":1,
    "dislikes":"0","extraLemmas":"","md5":"d41d8cd98f00b204e9800998ecf8427e",
    "views":25705,"tags":["new york","timelapse"],"userName":"egster",
    "title":"NYC Timelapse","description":"",
    "languageText":"","languageCategories":["new york"],
    "subreddit":"timelapse","redditId":"r1","redditIdText":"r1t",
    "domainWhitelist":["example.org"]
}}"##;

const MEDIA_NO_OPTIONALS: &str = r##"{"gfyItem":{
    "gfyId":"xyz","gfyName":"Xyz","gfyNumber":"6742951",
    "webmUrl":"https://e.example/x.webm","gifUrl":"https://e.example/x.gif",
    "mobileUrl":"https://e.example/x-mobile.mp4",
    "mobilePosterUrl":"https://e.example/x-mobile.jpg",
    "miniUrl":"https://e.example/x-mini.mp4",
    "posterUrl":"https://e.example/x-poster.jpg",
    "thumb100PosterUrl":"https://e.example/x-thumb.jpg",
    "max5mbGif":"https://e.example/x-5mb.gif",
    "max2mbGif":"https://e.example/x-2mb.gif",
    "max1mbGif":"https://e.example/x-1mb.gif",
    "gif100px":"https://e.example/x-100px.gif",
    "width":1920,"height":1080,"avgColor":"#252A28",
    "frameRate":30.03003,"numFrames":200.0,
    "mp4Size":14234971,"webmSize":2329134,
    "source":1,"createDate":1561075293,"nsfw":"0",
    "mp4Url":"https://e.example/x.mp4","likes":"1","published":1,
    "dislikes":"0","extraLemmas":"",
    "views":25705,"tags":[],"userName":"egster",
    "title":"NYC Timelapse","description":"",
    "languageText":"",
    "domainWhitelist":[]
}}"##;

#[test]
fn media_item_round_trips_field_for_field() {
    let api = client();
    let m = api.info(200, MEDIA_FULL).expect("well-formed body must decode");
    assert_eq!(m.gfy_id, "xyz");
    assert_eq!(m.gfy_name, "Xyz");
    assert_eq!(m.gfy_number, "6742951");
    assert_eq!(m.webm_url, "https://e.example/x.webm");
    assert_eq!(m.gif_url, "https://e.example/x.gif");
    assert_eq!(m.mobile_url, "https://e.example/x-mobile.mp4");
    assert_eq!(m.mobile_poster_url, "https://e.example/x-mobile.jpg");
    assert_eq!(m.mini_url, "https://e.example/x-mini.mp4");
    assert_eq!(m.poster_url, "https://e.example/x-poster.jpg");
    assert_eq!(m.thumb_100_poster_url, "https://e.example/x-thumb.jpg");
    assert_eq!(m.five_mb_gif, "https://e.example/x-5mb.gif");
    assert_eq!(m.two_mb_gif, "https://e.example/x-2mb.gif");
    assert_eq!(m.one_mb_gif, "https://e.example/x-1mb.gif");
    assert_eq!(m.hundred_px_gif, "https://e.example/x-100px.gif");
    assert_eq!(m.width, 1920);
    assert_eq!(m.height, 1080);
    assert_eq!(m.avg_color, "#252A28");
    assert_eq!(m.frame_rate, "30.03003");
    assert_eq!(m.num_frames, "200.0");
    assert_eq!(m.mp4_size, 14234971);
    assert_eq!(m.webm_size, 2329134);
    assert_eq!(m.gif_size, Some(910232));
    assert_eq!(m.source, 1);
    assert_eq!(m.create_date, 1561075293);
    assert_eq!(m.nsfw, "0");
    assert_eq!(m.mp4_url, "https://e.example/x.mp4");
    assert_eq!(m.likes, "1");
    assert_eq!(m.published, 1);
    assert_eq!(m.dislikes, "0");
    assert_eq!(m.extra_lemmas, "");
    assert_eq!(m.md5, Some("d41d8cd98f00b204e9800998ecf8427e".to_string()));
    assert_eq!(m.views, 25705);
    assert_eq!(m.tags, vec!["new york".to_string(), "timelapse".to_string()]);
    assert_eq!(m.username, "egster");
    assert_eq!(m.title, "NYC Timelapse");
    assert_eq!(m.description, "");
    assert_eq!(m.language_text, "");
    assert_eq!(m.language_categories, Some(vec!["new york".to_string()]));
    assert_eq!(m.subreddit, Some("timelapse".to_string()));
    assert_eq!(m.reddit_id, Some("r1".to_string()));
    assert_eq!(m.reddit_id_text, Some("r1t".to_string()));
    assert_eq!(m.domain_whitelist, vec!["example.org".to_string()]);
}

#[test]
fn scenario_media_lookup_by_id() {
    let api = client();
    let m = api.info(200, MEDIA_FULL).expect("well-formed body must decode");
    assert_eq!(m.gfy_id, "xyz");
}

#[test]
fn missing_optional_fields_decode_to_absent() {
    let api = client();
    let m = api.info(200, MEDIA_NO_OPTIONALS).expect("optionals may be missing");
    assert_eq!(m.gif_size, None);
    assert_eq!(m.md5, None);
    assert_eq!(m.language_categories, None);
    assert_eq!(m.subreddit, None);
    assert_eq!(m.reddit_id, None);
    assert_eq!(m.reddit_id_text, None);
    assert_eq!(m.tags, Vec::<String>::new());
}

#[test]
fn missing_required_field_is_a_decode_error() {
    let api = client();
    let body = MEDIA_FULL.replace("\"gfyId\":\"xyz\",", "");
    let r = api.info(200, &body);
    assert_eq!(
        r,
        Err(ApiError::Decode(DecodeError::Field("gfyId".to_string())))
    );
    // A decode failure is a different value, of a different kind, than a
    // transport failure.
    assert_ne!(r, Err(ApiError::Request("connection reset".to_string())));
}

#[test]
fn wrongly_typed_required_field_is_a_decode_error() {
    let api = client();
    let body = MEDIA_FULL.replace("\"width\":1920,", "\"width\":\"wide\",");
    let r = api.info(200, &body);
    assert_eq!(
        r,
        Err(ApiError::Decode(DecodeError::Field("width".to_string())))
    );
}

#[test]
fn wrongly_typed_optional_field_is_a_decode_error() {
    let api = client();
    let body = MEDIA_FULL.replace(
        "\"md5\":\"d41d8cd98f00b204e9800998ecf8427e\",",
        "\"md5\":5,",
    );
    let r = api.info(200, &body);
    assert_eq!(r, Err(ApiError::Decode(DecodeError::Field("md5".to_string()))));
}

#[test]
fn non_success_status_is_unknown() {
    let api = client();
    assert_eq!(api.info(404, MEDIA_FULL), Err(ApiError::Unknown));
    assert_eq!(api.user_details(500, "{}"), Err(ApiError::Unknown));
    assert_eq!(api.self_details(301, "{}"), Err(ApiError::Unknown));
}

#[test]
fn unparseable_media_body_is_a_syntax_error() {
    let api = client();
    assert_eq!(
        api.info(200, "{"),
        Err(ApiError::Decode(DecodeError::Syntax))
    );
}

#[test]
fn missing_envelope_is_a_decode_error() {
    let api = client();
    let r = api.info(200, r#"{"somethingElse":1}"#);
    assert_eq!(
        r,
        Err(ApiError::Decode(DecodeError::Field("gfyItem".to_string())))
    );
}

const USER_BODY: &str = r#"{
    "userid":12345,"username":"alice","description":"hi",
    "profileUrl":"https://e.example/u/alice","name":"Alice",
    "views":9000,"email_verified":true,"url":"https://e.example/alice",
    "createDate":1561075293,"profileImageUrl":"https://e.example/alice.jpg",
    "verified":false,"followers":10,"following":3
}"#;

#[test]
fn user_details_decodes_the_profile() {
    let api = client();
    let u = api.user_details(200, USER_BODY).expect("profile must decode");
    assert_eq!(u.userid, 12345);
    assert_eq!(u.username, "alice");
    assert_eq!(u.description, "hi");
    assert_eq!(u.profile_url, "https://e.example/u/alice");
    assert_eq!(u.name, "Alice");
    assert_eq!(u.views, 9000);
    assert!(u.email_verified);
    assert_eq!(u.url, "https://e.example/alice");
    assert_eq!(u.create_date, 1561075293);
    assert_eq!(u.profile_image_url, "https://e.example/alice.jpg");
    assert!(!u.verified);
    assert_eq!(u.followers, 10);
    assert_eq!(u.following, 3);
}

#[test]
fn user_details_missing_field_names_it() {
    let api = client();
    let body = USER_BODY.replace("\"views\":9000,", "");
    assert_eq!(
        api.user_details(200, &body),
        Err(ApiError::Decode(DecodeError::Field("views".to_string())))
    );
}

#[test]
fn self_details_decodes_the_extended_profile() {
    let api = client();
    let body = USER_BODY.trim_end().trim_end_matches('}').to_string()
        + r#","geoWhitelist":"","domainWhitelist":"","associatedProviders":"none",
           "iframeProfileImageVisible":"yes"}"#;
    let u = api.self_details(200, &body).expect("profile must decode");
    assert_eq!(u.username, "alice");
    assert_eq!(u.associated_providers, "none");
    assert_eq!(u.iframe_profile_image_visible, "yes");
}
