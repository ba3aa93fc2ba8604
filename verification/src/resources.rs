//! The resource records the service returns, and their decoding contracts:
//! which wire field feeds each domain field, which fields are required, and
//! which decode to an explicit absent marker when missing.

use crate::error::DecodeError;
use crate::json::{
    bool_field, num_text_field, opt_str_arr_field, opt_str_field, opt_u32_field, spec_bool_field,
    spec_field, spec_num_text_field, spec_opt_str_arr_field, spec_opt_str_field,
    spec_opt_u32_field, spec_str_arr_field, spec_str_field, spec_u32_field, spec_u64_field,
    str_arr_field, str_field, u32_field, u64_field, Json,
};
use vstd::prelude::*;
use vstd::string::*;

verus! {

/// The still-unspecified payload of account creation.
#[derive(Debug, Clone, PartialEq, Eq, Structural)]
pub struct CreateUser;

/// The still-unspecified payload of a user-detail mutation.
#[derive(Debug, Clone, PartialEq, Eq, Structural)]
pub struct UpdateOperations;

/// Credentials for the client-credentials exchange, as plain values.  The
/// embedding program loads them (the wire names are `id` and `secret`).
#[derive(Debug, Clone, PartialEq, Eq)]
pub struct LoadCredentials {
    pub client_id: String,
    pub client_secret: String,
}

/// A user profile, as the user-details lookup returns it.
#[derive(Debug, Clone, PartialEq, Eq)]
pub struct User {
    pub userid: u64,
    pub username: String,
    pub description: String,
    pub profile_url: String,
    pub name: String,
    pub views: u64,
    pub email_verified: bool,
    pub url: String,
    pub create_date: u32,
    pub profile_image_url: String,
    pub verified: bool,
    pub followers: u32,
    pub following: u32,
}

/// Whether `j` carries every required field of a [`User`], each with the
/// right shape.
pub open spec fn user_decodes(j: Json) -> bool {
    &&& spec_u64_field(j, "userid"@) is Some
    &&& spec_str_field(j, "username"@) is Some
    &&& spec_str_field(j, "description"@) is Some
    &&& spec_str_field(j, "profileUrl"@) is Some
    &&& spec_str_field(j, "name"@) is Some
    &&& spec_u64_field(j, "views"@) is Some
    &&& spec_bool_field(j, "email_verified"@) is Some
    &&& spec_str_field(j, "url"@) is Some
    &&& spec_u32_field(j, "createDate"@) is Some
    &&& spec_str_field(j, "profileImageUrl"@) is Some
    &&& spec_bool_field(j, "verified"@) is Some
    &&& spec_u32_field(j, "followers"@) is Some
    &&& spec_u32_field(j, "following"@) is Some
}

/// Whether `u` is exactly the record `j` describes, wire name by wire
/// name.
pub open spec fn user_fields_match(u: User, j: Json) -> bool {
    &&& Some(u.userid) == spec_u64_field(j, "userid"@)
    &&& Some(u.username@) == spec_str_field(j, "username"@)
    &&& Some(u.description@) == spec_str_field(j, "description"@)
    &&& Some(u.profile_url@) == spec_str_field(j, "profileUrl"@)
    &&& Some(u.name@) == spec_str_field(j, "name"@)
    &&& Some(u.views) == spec_u64_field(j, "views"@)
    &&& Some(u.email_verified) == spec_bool_field(j, "email_verified"@)
    &&& Some(u.url@) == spec_str_field(j, "url"@)
    &&& Some(u.create_date) == spec_u32_field(j, "createDate"@)
    &&& Some(u.profile_image_url@) == spec_str_field(j, "profileImageUrl"@)
    &&& Some(u.verified) == spec_bool_field(j, "verified"@)
    &&& Some(u.followers) == spec_u32_field(j, "followers"@)
    &&& Some(u.following) == spec_u32_field(j, "following"@)
}

/// Decodes a user profile.
pub fn decode_user(j: &Json) -> (r: Result<User, DecodeError>)
    ensures
        r is Ok <==> user_decodes(*j),
        r matches Ok(u) ==> user_fields_match(u, *j),
        r matches Err(e) ==> e is Field,
{
    Ok(User {
        userid: u64_field(j, "userid")?,
        username: str_field(j, "username")?,
        description: str_field(j, "description")?,
        profile_url: str_field(j, "profileUrl")?,
        name: str_field(j, "name")?,
        views: u64_field(j, "views")?,
        email_verified: bool_field(j, "email_verified")?,
        url: str_field(j, "url")?,
        create_date: u32_field(j, "createDate")?,
        profile_image_url: str_field(j, "profileImageUrl")?,
        verified: bool_field(j, "verified")?,
        followers: u32_field(j, "followers")?,
        following: u32_field(j, "following")?,
    })
}

/// The authenticated account's own profile: a [`User`] plus the fields the
/// service only reveals about oneself.
#[derive(Debug, Clone, PartialEq, Eq)]
pub struct SelfUser {
    pub userid: u64,
    pub username: String,
    pub description: String,
    pub profile_url: String,
    pub name: String,
    pub views: u64,
    pub email_verified: bool,
    pub url: String,
    pub create_date: u32,
    pub profile_image_url: String,
    pub verified: bool,
    pub followers: u32,
    pub following: u32,
    pub geo_whitelist: String,
    pub domain_whitelist: String,
    pub associated_providers: String,
    pub iframe_profile_image_visible: String,
}

/// Whether `j` carries every required field of a [`SelfUser`].
pub open spec fn self_user_decodes(j: Json) -> bool {
    &&& spec_u64_field(j, "userid"@) is Some
    &&& spec_str_field(j, "username"@) is Some
    &&& spec_str_field(j, "description"@) is Some
    &&& spec_str_field(j, "profileUrl"@) is Some
    &&& spec_str_field(j, "name"@) is Some
    &&& spec_u64_field(j, "views"@) is Some
    &&& spec_bool_field(j, "email_verified"@) is Some
    &&& spec_str_field(j, "url"@) is Some
    &&& spec_u32_field(j, "createDate"@) is Some
    &&& spec_str_field(j, "profileImageUrl"@) is Some
    &&& spec_bool_field(j, "verified"@) is Some
    &&& spec_u32_field(j, "followers"@) is Some
    &&& spec_u32_field(j, "following"@) is Some
    &&& spec_str_field(j, "geoWhitelist"@) is Some
    &&& spec_str_field(j, "domainWhitelist"@) is Some
    &&& spec_str_field(j, "associatedProviders"@) is Some
    &&& spec_str_field(j, "iframeProfileImageVisible"@) is Some
}

/// Whether `u` is exactly the record `j` describes.
pub open spec fn self_user_fields_match(u: SelfUser, j: Json) -> bool {
    &&& Some(u.userid) == spec_u64_field(j, "userid"@)
    &&& Some(u.username@) == spec_str_field(j, "username"@)
    &&& Some(u.description@) == spec_str_field(j, "description"@)
    &&& Some(u.profile_url@) == spec_str_field(j, "profileUrl"@)
    &&& Some(u.name@) == spec_str_field(j, "name"@)
    &&& Some(u.views) == spec_u64_field(j, "views"@)
    &&& Some(u.email_verified) == spec_bool_field(j, "email_verified"@)
    &&& Some(u.url@) == spec_str_field(j, "url"@)
    &&& Some(u.create_date) == spec_u32_field(j, "createDate"@)
    &&& Some(u.profile_image_url@) == spec_str_field(j, "profileImageUrl"@)
    &&& Some(u.verified) == spec_bool_field(j, "verified"@)
    &&& Some(u.followers) == spec_u32_field(j, "followers"@)
    &&& Some(u.following) == spec_u32_field(j, "following"@)
    &&& Some(u.geo_whitelist@) == spec_str_field(j, "geoWhitelist"@)
    &&& Some(u.domain_whitelist@) == spec_str_field(j, "domainWhitelist"@)
    &&& Some(u.associated_providers@) == spec_str_field(j, "associatedProviders"@)
    &&& Some(u.iframe_profile_image_visible@) == spec_str_field(j, "iframeProfileImageVisible"@)
}

/// Decodes the authenticated account's own profile.
pub fn decode_self_user(j: &Json) -> (r: Result<SelfUser, DecodeError>)
    ensures
        r is Ok <==> self_user_decodes(*j),
        r matches Ok(u) ==> self_user_fields_match(u, *j),
        r matches Err(e) ==> e is Field,
{
    Ok(SelfUser {
        userid: u64_field(j, "userid")?,
        username: str_field(j, "username")?,
        description: str_field(j, "description")?,
        profile_url: str_field(j, "profileUrl")?,
        name: str_field(j, "name")?,
        views: u64_field(j, "views")?,
        email_verified: bool_field(j, "email_verified")?,
        url: str_field(j, "url")?,
        create_date: u32_field(j, "createDate")?,
        profile_image_url: str_field(j, "profileImageUrl")?,
        verified: bool_field(j, "verified")?,
        followers: u32_field(j, "followers")?,
        following: u32_field(j, "following")?,
        geo_whitelist: str_field(j, "geoWhitelist")?,
        domain_whitelist: str_field(j, "domainWhitelist")?,
        associated_providers: str_field(j, "associatedProviders")?,
        iframe_profile_image_visible: str_field(j, "iframeProfileImageVisible")?,
    })
}

/// One media item's metadata.
///
/// `frame_rate` and `num_frames` carry fractional values on the wire; they
/// are kept as the number's literal text, verbatim, since the library holds
/// no floating point.  The optional fields decode to an explicit absent
/// marker when the service omits them, never to a zero value.
#[derive(Debug, Clone, PartialEq, Eq)]
pub struct GfyItem {
    pub gfy_id: String,
    pub gfy_name: String,
    pub gfy_number: String,
    pub webm_url: String,
    pub gif_url: String,
    pub mobile_url: String,
    pub mobile_poster_url: String,
    pub mini_url: String,
    pub poster_url: String,
    pub thumb_100_poster_url: String,
    pub five_mb_gif: String,
    pub two_mb_gif: String,
    pub one_mb_gif: String,
    pub hundred_px_gif: String,
    pub width: u64,
    pub height: u64,
    pub avg_color: String,
    pub frame_rate: String,
    pub num_frames: String,
    pub mp4_size: u32,
    pub webm_size: u32,
    pub gif_size: Option<u32>,
    pub source: u32,
    pub create_date: u32,
    pub nsfw: String,
    pub mp4_url: String,
    pub likes: String,
    pub published: u32,
    pub dislikes: String,
    pub extra_lemmas: String,
    pub md5: Option<String>,
    pub views: u32,
    pub tags: Vec<String>,
    pub username: String,
    pub title: String,
    pub description: String,
    pub language_text: String,
    pub language_categories: Option<Vec<String>>,
    pub subreddit: Option<String>,
    pub reddit_id: Option<String>,
    pub reddit_id_text: Option<String>,
    pub domain_whitelist: Vec<String>,
}

/// Whether `j` carries every required field of a [`GfyItem`] with the right
/// shape, and every present optional field with the right shape.
pub open spec fn gfy_item_decodes(j: Json) -> bool {
    &&& spec_str_field(j, "gfyId"@) is Some
    &&& spec_str_field(j, "gfyName"@) is Some
    &&& spec_str_field(j, "gfyNumber"@) is Some
    &&& spec_str_field(j, "webmUrl"@) is Some
    &&& spec_str_field(j, "gifUrl"@) is Some
    &&& spec_str_field(j, "mobileUrl"@) is Some
    &&& spec_str_field(j, "mobilePosterUrl"@) is Some
    &&& spec_str_field(j, "miniUrl"@) is Some
    &&& spec_str_field(j, "posterUrl"@) is Some
    &&& spec_str_field(j, "thumb100PosterUrl"@) is Some
    &&& spec_str_field(j, "max5mbGif"@) is Some
    &&& spec_str_field(j, "max2mbGif"@) is Some
    &&& spec_str_field(j, "max1mbGif"@) is Some
    &&& spec_str_field(j, "gif100px"@) is Some
    &&& spec_u64_field(j, "width"@) is Some
    &&& spec_u64_field(j, "height"@) is Some
    &&& spec_str_field(j, "avgColor"@) is Some
    &&& spec_num_text_field(j, "frameRate"@) is Some
    &&& spec_num_text_field(j, "numFrames"@) is Some
    &&& spec_u32_field(j, "mp4Size"@) is Some
    &&& spec_u32_field(j, "webmSize"@) is Some
    &&& spec_opt_u32_field(j, "gifSize"@) is Some
    &&& spec_u32_field(j, "source"@) is Some
    &&& spec_u32_field(j, "createDate"@) is Some
    &&& spec_str_field(j, "nsfw"@) is Some
    &&& spec_str_field(j, "mp4Url"@) is Some
    &&& spec_str_field(j, "likes"@) is Some
    &&& spec_u32_field(j, "published"@) is Some
    &&& spec_str_field(j, "dislikes"@) is Some
    &&& spec_str_field(j, "extraLemmas"@) is Some
    &&& spec_opt_str_field(j, "md5"@) is Some
    &&& spec_u32_field(j, "views"@) is Some
    &&& spec_str_arr_field(j, "tags"@) is Some
    &&& spec_str_field(j, "userName"@) is Some
    &&& spec_str_field(j, "title"@) is Some
    &&& spec_str_field(j, "description"@) is Some
    &&& spec_str_field(j, "languageText"@) is Some
    &&& spec_opt_str_arr_field(j, "languageCategories"@) is Some
    &&& spec_opt_str_field(j, "subreddit"@) is Some
    &&& spec_opt_str_field(j, "redditId"@) is Some
    &&& spec_opt_str_field(j, "redditIdText"@) is Some
    &&& spec_str_arr_field(j, "domainWhitelist"@) is Some
}

/// Whether `m` is exactly the record `j` describes, wire name by wire
/// name.
pub open spec fn gfy_item_fields_match(m: GfyItem, j: Json) -> bool {
    &&& Some(m.gfy_id@) == spec_str_field(j, "gfyId"@)
    &&& Some(m.gfy_name@) == spec_str_field(j, "gfyName"@)
    &&& Some(m.gfy_number@) == spec_str_field(j, "gfyNumber"@)
    &&& Some(m.webm_url@) == spec_str_field(j, "webmUrl"@)
    &&& Some(m.gif_url@) == spec_str_field(j, "gifUrl"@)
    &&& Some(m.mobile_url@) == spec_str_field(j, "mobileUrl"@)
    &&& Some(m.mobile_poster_url@) == spec_str_field(j, "mobilePosterUrl"@)
    &&& Some(m.mini_url@) == spec_str_field(j, "miniUrl"@)
    &&& Some(m.poster_url@) == spec_str_field(j, "posterUrl"@)
    &&& Some(m.thumb_100_poster_url@) == spec_str_field(j, "thumb100PosterUrl"@)
    &&& Some(m.five_mb_gif@) == spec_str_field(j, "max5mbGif"@)
    &&& Some(m.two_mb_gif@) == spec_str_field(j, "max2mbGif"@)
    &&& Some(m.one_mb_gif@) == spec_str_field(j, "max1mbGif"@)
    &&& Some(m.hundred_px_gif@) == spec_str_field(j, "gif100px"@)
    &&& Some(m.width) == spec_u64_field(j, "width"@)
    &&& Some(m.height) == spec_u64_field(j, "height"@)
    &&& Some(m.avg_color@) == spec_str_field(j, "avgColor"@)
    &&& Some(m.frame_rate@) == spec_num_text_field(j, "frameRate"@)
    &&& Some(m.num_frames@) == spec_num_text_field(j, "numFrames"@)
    &&& Some(m.mp4_size) == spec_u32_field(j, "mp4Size"@)
    &&& Some(m.webm_size) == spec_u32_field(j, "webmSize"@)
    &&& Some(m.gif_size) == spec_opt_u32_field(j, "gifSize"@)
    &&& Some(m.source) == spec_u32_field(j, "source"@)
    &&& Some(m.create_date) == spec_u32_field(j, "createDate"@)
    &&& Some(m.nsfw@) == spec_str_field(j, "nsfw"@)
    &&& Some(m.mp4_url@) == spec_str_field(j, "mp4Url"@)
    &&& Some(m.likes@) == spec_str_field(j, "likes"@)
    &&& Some(m.published) == spec_u32_field(j, "published"@)
    &&& Some(m.dislikes@) == spec_str_field(j, "dislikes"@)
    &&& Some(m.extra_lemmas@) == spec_str_field(j, "extraLemmas"@)
    &&& Some(m.md5.deep_view()) == spec_opt_str_field(j, "md5"@)
    &&& Some(m.views) == spec_u32_field(j, "views"@)
    &&& Some(m.tags.deep_view()) == spec_str_arr_field(j, "tags"@)
    &&& Some(m.username@) == spec_str_field(j, "userName"@)
    &&& Some(m.title@) == spec_str_field(j, "title"@)
    &&& Some(m.description@) == spec_str_field(j, "description"@)
    &&& Some(m.language_text@) == spec_str_field(j, "languageText"@)
    &&& Some(m.language_categories.deep_view()) == spec_opt_str_arr_field(j, "languageCategories"@)
    &&& Some(m.subreddit.deep_view()) == spec_opt_str_field(j, "subreddit"@)
    &&& Some(m.reddit_id.deep_view()) == spec_opt_str_field(j, "redditId"@)
    &&& Some(m.reddit_id_text.deep_view()) == spec_opt_str_field(j, "redditIdText"@)
    &&& Some(m.domain_whitelist.deep_view()) == spec_str_arr_field(j, "domainWhitelist"@)
}

/// Decodes one media item's metadata.
pub fn decode_gfy_item(j: &Json) -> (r: Result<GfyItem, DecodeError>)
    ensures
        r is Ok <==> gfy_item_decodes(*j),
        r matches Ok(m) ==> gfy_item_fields_match(m, *j),
        r matches Err(e) ==> e is Field,
{
    Ok(GfyItem {
        gfy_id: str_field(j, "gfyId")?,
        gfy_name: str_field(j, "gfyName")?,
        gfy_number: str_field(j, "gfyNumber")?,
        webm_url: str_field(j, "webmUrl")?,
        gif_url: str_field(j, "gifUrl")?,
        mobile_url: str_field(j, "mobileUrl")?,
        mobile_poster_url: str_field(j, "mobilePosterUrl")?,
        mini_url: str_field(j, "miniUrl")?,
        poster_url: str_field(j, "posterUrl")?,
        thumb_100_poster_url: str_field(j, "thumb100PosterUrl")?,
        five_mb_gif: str_field(j, "max5mbGif")?,
        two_mb_gif: str_field(j, "max2mbGif")?,
        one_mb_gif: str_field(j, "max1mbGif")?,
        hundred_px_gif: str_field(j, "gif100px")?,
        width: u64_field(j, "width")?,
        height: u64_field(j, "height")?,
        avg_color: str_field(j, "avgColor")?,
        frame_rate: num_text_field(j, "frameRate")?,
        num_frames: num_text_field(j, "numFrames")?,
        mp4_size: u32_field(j, "mp4Size")?,
        webm_size: u32_field(j, "webmSize")?,
        gif_size: opt_u32_field(j, "gifSize")?,
        source: u32_field(j, "source")?,
        create_date: u32_field(j, "createDate")?,
        nsfw: str_field(j, "nsfw")?,
        mp4_url: str_field(j, "mp4Url")?,
        likes: str_field(j, "likes")?,
        published: u32_field(j, "published")?,
        dislikes: str_field(j, "dislikes")?,
        extra_lemmas: str_field(j, "extraLemmas")?,
        md5: opt_str_field(j, "md5")?,
        views: u32_field(j, "views")?,
        tags: str_arr_field(j, "tags")?,
        username: str_field(j, "userName")?,
        title: str_field(j, "title")?,
        description: str_field(j, "description")?,
        language_text: str_field(j, "languageText")?,
        language_categories: opt_str_arr_field(j, "languageCategories")?,
        subreddit: opt_str_field(j, "subreddit")?,
        reddit_id: opt_str_field(j, "redditId")?,
        reddit_id_text: opt_str_field(j, "redditIdText")?,
        domain_whitelist: str_arr_field(j, "domainWhitelist")?,
    })
}

/// The envelope around one media item in the media-item-info response.
#[derive(Debug, Clone, PartialEq, Eq)]
pub struct GfycatInfo {
    pub gfy_item: GfyItem,
}

/// Whether `j` is a well-formed media-item-info response: an object whose
/// `gfyItem` field decodes to a media item.
pub open spec fn gfycat_info_decodes(j: Json) -> bool {
    spec_field(j, "gfyItem"@) matches Some(inner) && gfy_item_decodes(inner)
}

/// Whether `g` is exactly the envelope `j` describes.
pub open spec fn gfycat_info_fields_match(g: GfycatInfo, j: Json) -> bool {
    spec_field(j, "gfyItem"@) matches Some(inner) && gfy_item_fields_match(g.gfy_item, inner)
}

/// Decodes a media-item-info response.
pub fn decode_gfycat_info(j: &Json) -> (r: Result<GfycatInfo, DecodeError>)
    ensures
        r is Ok <==> gfycat_info_decodes(*j),
        r matches Ok(g) ==> gfycat_info_fields_match(g, *j),
        r matches Err(e) ==> e is Field,
{
    match crate::json::field(j, "gfyItem") {
        Some(inner) => Ok(GfycatInfo { gfy_item: decode_gfy_item(inner)? }),
        None => Err(DecodeError::Field(String::from_str("gfyItem"))),
    }
}

} // verus!
