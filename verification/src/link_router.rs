//! Request classification and link resolution.
//!
//! An inbound request is classified from its user-agent header into a
//! crawler or a user on some platform; a stored link plus a classification
//! then resolves to a concrete response: a temporary redirect to the
//! platform's destination, or a social-preview page for crawlers.

use vstd::prelude::*;
use vstd::string::StringExecFns;

use crate::crawler::{is_crawler, matches_any, CrawlerTable};
use crate::dao::Link;
use crate::pattern::{contains_sub, find_sub};
use crate::urls::{join_url, url_join, url_join_ok};
use crate::Error;

verus! {

/// The platform family inferred from a user agent that is not a crawler.
#[derive(Clone, Copy, Debug, PartialEq, Eq, Structural)]
pub enum Platform {
    Android,
    Ios,
    Web,
    Unknown,
}

/// Who is asking: an automated crawler, or a user on some platform.
#[derive(Clone, Copy, Debug, PartialEq, Eq, Structural)]
pub enum RequestActor {
    Crawler,
    User(Platform),
}

/// Platform detection over the user-agent string, ordered, first match wins:
/// "Android"; then any of "iPhone", "iPad", "iPod"; then any of "Windows",
/// "Macintosh", "Linux"; otherwise unknown. Matching is case-sensitive
/// substring containment.
pub open spec fn spec_platform_of(ua: Seq<char>) -> Platform {
    if contains_sub(ua, "Android"@) {
        Platform::Android
    } else if contains_sub(ua, "iPhone"@) || contains_sub(ua, "iPad"@) || contains_sub(
        ua,
        "iPod"@,
    ) {
        Platform::Ios
    } else if contains_sub(ua, "Windows"@) || contains_sub(ua, "Macintosh"@) || contains_sub(
        ua,
        "Linux"@,
    ) {
        Platform::Web
    } else {
        Platform::Unknown
    }
}

/// Infers the platform from a user-agent string.
pub fn get_platform_from_user_agent(user_agent: &str) -> (r: Platform)
    ensures
        r == spec_platform_of(user_agent@),
{
    if find_sub(user_agent, "Android") {
        return Platform::Android;
    }
    if find_sub(user_agent, "iPhone") || find_sub(user_agent, "iPad") || find_sub(
        user_agent,
        "iPod",
    ) {
        return Platform::Ios;
    }
    if find_sub(user_agent, "Windows") || find_sub(user_agent, "Macintosh") || find_sub(
        user_agent,
        "Linux",
    ) {
        return Platform::Web;
    }
    Platform::Unknown
}

/// Request classification, ordered: an absent user agent is an unknown
/// platform; a crawler-signature match takes priority over platform
/// detection; otherwise the platform is inferred from the string.
pub open spec fn spec_classify(table: Seq<Seq<char>>, user_agent: Option<Seq<char>>) -> RequestActor {
    match user_agent {
        Option::None => RequestActor::User(Platform::Unknown),
        Option::Some(ua) => if matches_any(table, ua) {
            RequestActor::Crawler
        } else {
            RequestActor::User(spec_platform_of(ua))
        },
    }
}

/// Classifies a request from its user-agent header, if it carried one.
pub fn classify(table: &CrawlerTable, user_agent: Option<&str>) -> (r: RequestActor)
    ensures
        user_agent is None ==> r == RequestActor::User(Platform::Unknown),
        user_agent matches Some(ua) ==> r == spec_classify(table@, Some(ua@)),
{
    match user_agent {
        None => RequestActor::User(Platform::Unknown),
        Some(ua) => {
            if is_crawler(table, ua) {
                RequestActor::Crawler
            } else {
                RequestActor::User(get_platform_from_user_agent(ua))
            }
        },
    }
}

/// Crawler precedence: whenever any crawler signature matches the user
/// agent, classification is `Crawler`, even if the string also carries
/// platform tokens such as "Android".
pub proof fn lemma_crawler_precedence(table: Seq<Seq<char>>, ua: Seq<char>)
    requires
        matches_any(table, ua),
    ensures
        spec_classify(table, Some(ua)) == RequestActor::Crawler,
{
}

/// The concrete response for a resolved link: a temporary redirect to a
/// destination URL, or a preview page populated for crawlers.
#[derive(Debug, Clone, PartialEq, Eq)]
pub enum ResolvedAction {
    Redirect(String),
    RenderPreview {
        title: String,
        description: String,
        content_type: String,
        url: String,
        image_url: String,
    },
}

/// The destination a platform redirects to: Android and iOS have their own
/// field, web and unknown platforms use the web destination.
pub open spec fn spec_destination(platform: Platform, link: Link) -> Seq<char> {
    match platform {
        Platform::Android => link.android_destination@,
        Platform::Ios => link.ios_destination@,
        Platform::Web => link.web_destination@,
        Platform::Unknown => link.web_destination@,
    }
}

/// `action` is the resolution of `link` for `actor`, where `preview_url` is
/// the public URL a crawler preview carries.
pub open spec fn spec_resolved(
    actor: RequestActor,
    link: Link,
    preview_url: Seq<char>,
    action: ResolvedAction,
) -> bool {
    match actor {
        RequestActor::Crawler => {
            &&& action matches ResolvedAction::RenderPreview {
                title,
                description,
                content_type,
                url,
                image_url,
            }
            &&& title@ == link.title@
            &&& description@ == link.description@
            &&& content_type@ == "website"@
            &&& url@ == preview_url
            &&& image_url@ == link.image_url@
        },
        RequestActor::User(platform) => {
            &&& action matches ResolvedAction::Redirect(dest)
            &&& dest@ == spec_destination(platform, link)
        },
    }
}

/// Turns a stored link plus a request classification into the concrete
/// response. Crawlers get a preview page carrying the link's metadata and
/// `preview_url`, regardless of the destination fields; users get a redirect
/// to their platform's destination. The destination is returned even when
/// the stored field is empty: an empty redirect target is a configuration
/// gap in the stored link, which the transport layer must detect (see
/// [`is_bad_link_configuration`]) rather than redirect to.
pub fn resolve(actor: &RequestActor, link: &Link, preview_url: String) -> (r: ResolvedAction)
    ensures
        spec_resolved(*actor, *link, preview_url@, r),
{
    match actor {
        RequestActor::Crawler => ResolvedAction::RenderPreview {
            title: link.title.clone(),
            description: link.description.clone(),
            content_type: String::from_str("website"),
            url: preview_url,
            image_url: link.image_url.clone(),
        },
        RequestActor::User(Platform::Android) => ResolvedAction::Redirect(
            link.android_destination.clone(),
        ),
        RequestActor::User(Platform::Ios) => ResolvedAction::Redirect(
            link.ios_destination.clone(),
        ),
        RequestActor::User(Platform::Web) | RequestActor::User(Platform::Unknown) => ResolvedAction::Redirect(
            link.web_destination.clone(),
        ),
    }
}

/// Resolution from the deployment's base URL: a crawler preview's public URL
/// is the base URL joined with the link's path. `None` exactly for a crawler
/// preview whose base URL cannot be joined with the path; a user request
/// always resolves.
pub fn resolve_with_base(actor: &RequestActor, link: &Link, base_url: &str) -> (r: Option<
    ResolvedAction,
>)
    ensures
        r matches Some(action) ==> spec_resolved(
            *actor,
            *link,
            url_join(base_url@, link.link_path@),
            action,
        ),
        r is None <==> (*actor is Crawler && !url_join_ok(base_url@, link.link_path@)),
{
    match actor {
        RequestActor::Crawler => match join_url(base_url, link.link_path.as_str()) {
            Some(u) => Some(resolve(actor, link, u)),
            None => None,
        },
        RequestActor::User(_) => Some(resolve(actor, link, String::new())),
    }
}

/// An empty redirect target: the stored link lacks the selected destination,
/// so redirecting would be invalid. The transport layer answers with a
/// server error in that case instead of redirecting.
pub fn is_bad_link_configuration(action: &ResolvedAction) -> (r: bool)
    ensures
        r == (action matches ResolvedAction::Redirect(u) && u@.len() == 0),
{
    match action {
        ResolvedAction::Redirect(u) => u.as_str().is_empty(),
        ResolvedAction::RenderPreview { .. } => false,
    }
}

/// What the public resolution endpoint answers: a resolved action, a
/// not-found page, or a server failure.
#[derive(Debug, Clone, PartialEq, Eq)]
pub enum RouteOutcome {
    Action(ResolvedAction),
    NotFound,
    Failure(Error),
}

/// Handles one public link request, given the store's lookup answer and the
/// request's classification: an absent link is not found, a store failure is
/// passed through, and a found link is resolved against the base URL, where
/// a base that cannot be joined with the path is a link-configuration
/// failure, and nothing else is.
pub fn link_handler(lookup: Result<Option<Link>, Error>, actor: &RequestActor, base_url: &str) -> (r:
    RouteOutcome)
    ensures
        match lookup {
            Result::Err(e) => r == RouteOutcome::Failure(e),
            Result::Ok(Option::None) => r == RouteOutcome::NotFound,
            Result::Ok(Option::Some(link)) => {
                &&& (r matches RouteOutcome::Action(action) ==> spec_resolved(
                    *actor,
                    link,
                    url_join(base_url@, link.link_path@),
                    action,
                ))
                &&& (r is Action <==> (*actor is Crawler ==> url_join_ok(
                    base_url@,
                    link.link_path@,
                )))
                &&& (r matches RouteOutcome::Failure(e) ==> e == Error::BadLinkConfiguration)
                &&& !(r is NotFound)
            },
        },
{
    match lookup {
        Err(e) => RouteOutcome::Failure(e),
        Ok(None) => RouteOutcome::NotFound,
        Ok(Some(link)) => match resolve_with_base(actor, &link, base_url) {
            Some(action) => RouteOutcome::Action(action),
            None => RouteOutcome::Failure(Error::BadLinkConfiguration),
        },
    }
}

} // verus!
