//! What the pages of the site decide: where links lead, what a search asks
//! the server for, which uploads are accepted, and what a profile shows.

use vstd::prelude::*;

use crate::api::{Image, ServerError};
use crate::text::{has_prefix, push_char, texts_of};
use crate::user::{Permissions, User};
use crate::words::{ascii_words, split_ascii_whitespace};

verus! {

/// The decimal digit `d` (below 10).
pub open spec fn digit_char(d: nat) -> char {
    (48 + d) as char
}

/// The decimal numeral of `n`, without sign or leading zeros.
pub open spec fn decimal_digits(n: nat) -> Seq<char>
    decreases n,
{
    if n < 10 {
        seq![digit_char(n)]
    } else {
        decimal_digits(n / 10).push(digit_char(n % 10))
    }
}

/// The decimal numeral of `i`, with a minus sign when it is negative.
pub open spec fn decimal(i: int) -> Seq<char> {
    if i < 0 {
        seq!['-'] + decimal_digits((-i) as nat)
    } else {
        decimal_digits(i as nat)
    }
}

fn push_decimal_digits(s: &mut String, n: u64)
    ensures
        final(s)@ == old(s)@ + decimal_digits(n as nat),
    decreases n,
{
    if n >= 10 {
        push_decimal_digits(s, n / 10);
    }
    let d = (n % 10) as u8;
    let c = (48u8 + d) as char;
    assert(c == digit_char((n % 10) as nat));
    push_char(s, c);
    proof {
        if n < 10 {
            assert(n % 10 == n);
            assert(decimal_digits(n as nat) =~= seq![c]);
        }
    }
    assert(final(s)@ =~= old(s)@ + decimal_digits(n as nat)) by {
        if n >= 10 {
            assert(decimal_digits(n as nat) == decimal_digits((n / 10) as nat).push(c));
        }
    }
}

/// Appends the decimal numeral of `i` to `s`.
fn push_decimal(s: &mut String, i: i64)
    ensures
        final(s)@ == old(s)@ + decimal(i as int),
{
    if i < 0 {
        push_char(s, '-');
        let magnitude: u64 = (-(i as i128)) as u64;
        push_decimal_digits(s, magnitude);
        assert(final(s)@ =~= old(s)@ + decimal(i as int));
    } else {
        push_decimal_digits(s, i as u64);
    }
}

/// The page of the image with id `id`: `/img/` and the id in decimal.
pub fn image_route(id: i64) -> (route: String)
    ensures
        route@ == "/img/"@ + decimal(id as int),
{
    let mut route = "/img/".to_owned();
    push_decimal(&mut route, id);
    route
}

/// The search page for `tags`, as the search field and a tag's link lead
/// there: `/search?tags=` and the tags as given.
pub fn tags_route(tags: &str) -> (route: String)
    ensures
        route@ == "/search?tags="@ + tags@,
{
    let mut route = "/search?tags=".to_owned();
    route.append(tags);
    route
}

/// Where pressing Enter in the search bar leads: `/search` for an empty
/// field, else `/search?tags=` and the text typed.
pub fn search_route(input: &str) -> (route: String)
    ensures
        input@.len() == 0 ==> route@ == "/search"@,
        input@.len() > 0 ==> route@ == "/search?tags="@ + input@,
{
    let mut route = "/search".to_owned();
    if !input.is_empty() {
        route.append("?tags=");
        route.append(input);
        proof {
            reveal_strlit("/search");
            reveal_strlit("?tags=");
            reveal_strlit("/search?tags=");
            assert(route@ =~= "/search?tags="@ + input@);
        }
    } else {
        assert(input@ =~= Seq::<char>::empty());
    }
    route
}

impl Image {
    /// The link shown in previews: the preview link when there is one, else the image's own.
    pub fn preview_source(&self) -> (link: &String)
        ensures
            link@ == match self.preview_link {
                Some(p) => p@,
                None => self.link@,
            },
    {
        match &self.preview_link {
            Some(p) => p,
            None => &self.link,
        }
    }
}

/// The words of a search query; no query is an empty one.
pub fn search_terms(query: Option<&str>) -> (terms: Vec<String>)
    ensures
        texts_of(terms@) == match query {
            Some(q) => ascii_words(q@),
            None => Seq::<Seq<char>>::empty(),
        },
{
    match query {
        Some(q) => split_ascii_whitespace(q),
        None => {
            let terms: Vec<String> = Vec::new();
            assert(texts_of(terms@) =~= Seq::<Seq<char>>::empty());
            terms
        },
    }
}

/// What the server is asked to search for.
#[derive(Debug)]
pub enum SearchPlan {
    /// Every image.
    All,
    /// The images carrying any of these tags.
    ByTags(Vec<String>),
}

/// A search without terms lists every image; otherwise the images with any of the terms.
pub fn plan_search(tags: Vec<String>) -> (plan: SearchPlan)
    ensures
        tags@.len() == 0 ==> plan is All,
        tags@.len() > 0 ==> (plan matches SearchPlan::ByTags(t) && t@ == tags@),
{
    if tags.len() == 0 {
        SearchPlan::All
    } else {
        SearchPlan::ByTags(tags)
    }
}

/// Whether a link's content type names an image: it begins with `image`.
pub open spec fn is_image_content_type(content_type: Option<Seq<char>>) -> bool {
    match content_type {
        Some(t) => "image"@.len() <= t.len() && t.take("image"@.len() as int) == "image"@,
        None => false,
    }
}

/// A content type names an image exactly when its first five characters are
/// `image`: `image/png` does, `video/mp4`, `Image/png` and `imag` do not, and
/// no content type at all does not.
pub proof fn lemma_image_content_type(t: Seq<char>)
    ensures
        is_image_content_type(Some(t)) <==> (t.len() >= 5 && t[0] == 'i' && t[1] == 'm' && t[2]
            == 'a' && t[3] == 'g' && t[4] == 'e'),
        !is_image_content_type(None),
{
    reveal_strlit("image");
    if t.len() >= 5 && t[0] == 'i' && t[1] == 'm' && t[2] == 'a' && t[3] == 'g' && t[4] == 'e' {
        assert(t.take(5) =~= "image"@);
    }
    if is_image_content_type(Some(t)) {
        assert(t.take(5)[0] == "image"@[0]);
        assert(t.take(5)[1] == "image"@[1]);
        assert(t.take(5)[2] == "image"@[2]);
        assert(t.take(5)[3] == "image"@[3]);
        assert(t.take(5)[4] == "image"@[4]);
    }
}

/// Checks the content type a link answered with before an upload is stored:
/// a missing or unreadable type, or one that is not an image's, is refused.
pub fn check_image_content_type(content_type: Option<&str>) -> (res: Result<(), ServerError>)
    ensures
        is_image_content_type(
            match content_type {
                Some(t) => Some(t@),
                None => None,
            },
        ) ==> res is Ok,
        !is_image_content_type(
            match content_type {
                Some(t) => Some(t@),
                None => None,
            },
        ) ==> res == Err::<(), ServerError>(ServerError::NotAnImage),
        content_type is None ==> res == Err::<(), ServerError>(ServerError::NotAnImage),
        content_type matches Some(t) ==> (res is Ok <==> ("image"@.len() <= t@.len() && t@.take(
            "image"@.len() as int,
        ) == "image"@)),
        res is Err ==> res == Err::<(), ServerError>(ServerError::NotAnImage),
{
    match content_type {
        Some(t) => {
            if has_prefix(t, "image") {
                Ok(())
            } else {
                Err(ServerError::NotAnImage)
            }
        },
        None => Err(ServerError::NotAnImage),
    }
}

/// The parts of a profile page shown beyond the user's name.
#[derive(Clone, Copy, Debug, PartialEq, Eq, Structural)]
pub struct ProfileSections {
    /// The account settings: on one's own profile only.
    pub account_settings: bool,
    /// The admin panel: on one's own profile, for a user who may change the admin settings.
    pub admin_panel: bool,
}

/// The sections a profile shows: the account settings to its owner only, and
/// the admin panel besides to an owner who may change the admin settings.
pub open spec fn sections_shown(viewer_id: Option<i64>, owner_id: i64, can_administer: bool) -> ProfileSections {
    let own = viewer_id == Some(owner_id);
    ProfileSections { account_settings: own, admin_panel: own && can_administer }
}

/// The account settings show exactly to the logged-in owner, and the admin
/// panel exactly to a logged-in owner who may change the admin settings.
pub proof fn lemma_profile_sections(viewer_id: Option<i64>, owner_id: i64, can_administer: bool)
    ensures
        sections_shown(viewer_id, owner_id, can_administer).account_settings <==> viewer_id
            == Some(owner_id),
        sections_shown(viewer_id, owner_id, can_administer).admin_panel <==> (viewer_id == Some(
            owner_id,
        ) && can_administer),
        viewer_id is None ==> !sections_shown(viewer_id, owner_id, can_administer).account_settings,
{
}

/// The id of a viewer, if logged in.
pub open spec fn viewer_id(viewer: Option<&User>) -> Option<i64> {
    match viewer {
        Some(v) => Some(v.id),
        None => None,
    }
}

/// What the profile of `owner` shows to `viewer` (none when not logged in),
/// whose permissions are `viewer_perms`.
pub fn profile_sections(
    viewer: Option<&User>,
    viewer_perms: &Permissions,
    owner: &User,
) -> (sections: ProfileSections)
    ensures
        sections == sections_shown(
            viewer_id(viewer),
            owner.id,
            viewer_perms.can_change_admin_settings,
        ),
{
    let own = match viewer {
        Some(v) => v.id == owner.id,
        None => false,
    };
    ProfileSections {
        account_settings: own,
        admin_panel: own && viewer_perms.can_change_admin_settings,
    }
}

/// Why a profile cannot be shown.
#[derive(Clone, Copy, Debug, PartialEq, Eq, Structural)]
pub enum ProfileError {
    /// No user has the requested id.
    NotFound,
}

/// The profile page for the user looked up by the requested id (`None` when
/// no user has it): not found, or the sections it shows to `viewer`.
pub fn profile_page(
    owner: Option<&User>,
    viewer: Option<&User>,
    viewer_perms: &Permissions,
) -> (res: Result<ProfileSections, ProfileError>)
    ensures
        match owner {
            None => res == Err::<ProfileSections, ProfileError>(ProfileError::NotFound),
            Some(o) => res == Ok::<ProfileSections, ProfileError>(
                sections_shown(viewer_id(viewer), o.id, viewer_perms.can_change_admin_settings),
            ),
        },
{
    match owner {
        None => Err(ProfileError::NotFound),
        Some(o) => Ok(profile_sections(viewer, viewer_perms, o)),
    }
}

} // verus!
