//! The authenticated management surface: thin orchestration that checks the
//! caller's API key, delegates CRUD to the link store, and shapes stored
//! records into resources that carry the computed absolute public URL.
//!
//! Mapping is fixed: an absent id is `NotFound`, a record whose public URL
//! cannot be formed is `BadLinkConfiguration`, and a creation whose retry
//! budget ran out is `ExhaustedPathSpace`.

use vstd::prelude::*;

use crate::dao;
use crate::dao::{has_data, LinkData, LinkStore, PathGenerator};
use crate::pattern::str_eq;
use crate::urls::{join_url, url_join, url_join_ok};
use crate::Error;

verus! {

/// A link as the management surface exposes it: the stored fields plus the
/// computed absolute public URL.
#[derive(Debug, Clone, PartialEq, Eq)]
pub struct Link {
    pub id: u64,
    pub link_path: String,
    pub link_url: String,

    pub title: String,
    pub description: String,
    pub image_url: String,

    pub web_destination: String,
    pub ios_destination: String,
    pub android_destination: String,
}

/// `resource` presents `link`, with `url` as its computed public URL.
pub open spec fn resource_matches(resource: Link, link: dao::Link, url: Seq<char>) -> bool {
    &&& resource.id == link.id
    &&& resource.link_path@ == link.link_path@
    &&& resource.link_url@ == url
    &&& resource.title@ == link.title@
    &&& resource.description@ == link.description@
    &&& resource.image_url@ == link.image_url@
    &&& resource.web_destination@ == link.web_destination@
    &&& resource.ios_destination@ == link.ios_destination@
    &&& resource.android_destination@ == link.android_destination@
}

/// Shapes a stored link into a management resource around an already
/// computed public URL.
pub fn make_resource(link: &dao::Link, link_url: String) -> (r: Link)
    ensures
        resource_matches(r, *link, link_url@),
{
    Link {
        id: link.id,
        link_path: link.link_path.clone(),
        link_url,
        title: link.title.clone(),
        description: link.description.clone(),
        image_url: link.image_url.clone(),
        web_destination: link.web_destination.clone(),
        ios_destination: link.ios_destination.clone(),
        android_destination: link.android_destination.clone(),
    }
}

impl dao::Link {
    /// The management resource for this link, its public URL formed by
    /// joining the base URL with the link's path; `None` exactly when the
    /// base cannot be joined with the path.
    pub fn serialize(&self, base_url: &str) -> (r: Option<Link>)
        ensures
            r is Some <==> url_join_ok(base_url@, self.link_path@),
            r matches Some(res) ==> resource_matches(
                res,
                *self,
                url_join(base_url@, self.link_path@),
            ),
    {
        match join_url(base_url, self.link_path.as_str()) {
            Some(u) => Some(make_resource(self, u)),
            None => None,
        }
    }
}

/// The API-key hook: accepts the caller exactly when the supplied key equals
/// the configured one.
pub fn api_key_checker(api_key: &String, expected_key: &String) -> (r: Option<()>)
    ensures
        r is Some <==> api_key@ == expected_key@,
{
    if str_eq(api_key.as_str(), expected_key.as_str()) {
        Some(())
    } else {
        None
    }
}

/// Enforces caller authentication: `Unauthorized` exactly when the key is
/// absent or differs from the configured one, with no further detail leaked.
pub fn authorize(api_key: Option<&String>, expected_key: &String) -> (r: Result<(), Error>)
    ensures
        r is Ok <==> (api_key matches Some(k) && k@ == expected_key@),
        r matches Err(e) ==> e == Error::Unauthorized,
{
    match api_key {
        Some(k) => match api_key_checker(k, expected_key) {
            Some(_) => Ok(()),
            None => Err(Error::Unauthorized),
        },
        None => Err(Error::Unauthorized),
    }
}

/// The management API: authenticated CRUD orchestration over the link store,
/// with no business logic beyond delegation and error mapping.
pub struct ManagementApi;

impl ManagementApi {
    /// Lists every stored link as a management resource, in store order;
    /// an error exactly when some stored path does not join with the base.
    pub fn list_links(&self, store: &LinkStore, base_url: &str) -> (r: Result<Vec<Link>, Error>)
        ensures
            r is Ok <==> forall|i: int|
                0 <= i < store@.len() ==> url_join_ok(base_url@, #[trigger] store@[i].link_path@),
            r matches Ok(resources) ==> resources@.len() == store@.len() && forall|i: int|
                0 <= i < store@.len() ==> resource_matches(
                    resources@[i],
                    store@[i],
                    url_join(base_url@, store@[i].link_path@),
                ),
            r matches Err(e) ==> e == Error::BadLinkConfiguration,
    {
        let links = store.list_links();
        let mut resources: Vec<Link> = Vec::new();
        let mut i: usize = 0;
        while i < links.len()
            invariant
                links@ == store@,
                i <= links@.len(),
                resources@.len() == i,
                forall|k: int| 0 <= k < i ==> url_join_ok(base_url@, #[trigger] store@[k].link_path@),
                forall|k: int| 0 <= k < i ==> resource_matches(
                    resources@[k],
                    store@[k],
                    url_join(base_url@, store@[k].link_path@),
                ),
            decreases links@.len() - i,
        {
            match links[i].serialize(base_url) {
                Some(res) => resources.push(res),
                None => {
                    proof {
                        assert(!url_join_ok(base_url@, store@[i as int].link_path@));
                    }
                    return Err(Error::BadLinkConfiguration);
                },
            }
            i += 1;
        }
        Ok(resources)
    }

    /// Fetches one link by id; `NotFound` exactly when the id is absent, the
    /// resource exactly when the stored path joins with the base.
    pub fn get_link(&self, store: &LinkStore, link_id: u64, base_url: &str) -> (r: Result<
        Link,
        Error,
    >)
        requires
            store.wf(),
        ensures
            match store.spec_get(link_id) {
                Option::None => r == Result::<Link, Error>::Err(Error::NotFound),
                Option::Some(link) => {
                    &&& (r is Ok <==> url_join_ok(base_url@, link.link_path@))
                    &&& (r matches Ok(res) ==> resource_matches(
                        res,
                        link,
                        url_join(base_url@, link.link_path@),
                    ))
                    &&& (r matches Err(e) ==> e == Error::BadLinkConfiguration)
                },
            },
    {
        match store.get_link(link_id) {
            Some(link) => match link.serialize(base_url) {
                Some(res) => Ok(res),
                None => Err(Error::BadLinkConfiguration),
            },
            None => Err(Error::NotFound),
        }
    }

    /// Creates a link from the posted fields and returns its resource. The
    /// path is generated, never caller-supplied; a collision is retried by
    /// the store, never surfaced, until the retry budget is exhausted.
    pub fn create_link<G: PathGenerator>(
        &self,
        store: &mut LinkStore,
        generator: &mut G,
        input: LinkData,
        base_url: &str,
    ) -> (r: Result<Link, Error>)
        requires
            old(store).wf(),
            old(store).spec_next_id() < u64::MAX,
        ensures
            final(store).wf(),
            match r {
                Ok(res) => {
                    &&& final(store)@.len() == old(store)@.len() + 1
                    &&& ({
                        let link = final(store)@.last();
                        &&& final(store)@ == old(store)@.push(link)
                        &&& link.id == old(store).spec_next_id()
                        &&& dao::is_valid_path(link.link_path@)
                        &&& !old(store).spec_has_path(link.link_path@)
                        &&& has_data(link, input)
                        &&& url_join_ok(base_url@, link.link_path@)
                        &&& resource_matches(res, link, url_join(base_url@, link.link_path@))
                    })
                },
                Err(e) => {
                    &&& (e == Error::ExhaustedPathSpace || e == Error::BadLinkConfiguration)
                    &&& (e == Error::ExhaustedPathSpace ==> *final(store) == *old(store)
                        && old(store)@.len() > 0)
                    &&& (e == Error::BadLinkConfiguration ==> ({
                        let link = final(store)@.last();
                        &&& final(store)@ == old(store)@.push(link)
                        &&& has_data(link, input)
                        &&& !url_join_ok(base_url@, link.link_path@)
                    }))
                },
            },
    {
        match store.create_link(generator, input) {
            Ok(link) => match link.serialize(base_url) {
                Some(res) => Ok(res),
                None => Err(Error::BadLinkConfiguration),
            },
            Err(e) => Err(e),
        }
    }

    /// Replaces every mutable field of the link with this id, atomically;
    /// `NotFound` when the id is absent. Id and path never change.
    pub fn update_link(
        &self,
        store: &mut LinkStore,
        link_id: u64,
        input: LinkData,
        base_url: &str,
    ) -> (r: Result<Link, Error>)
        requires
            old(store).wf(),
        ensures
            final(store).wf(),
            match r {
                Ok(res) => {
                    &&& old(store).spec_has_id(link_id)
                    &&& ({
                        let k = choose|k: int|
                            0 <= k < old(store)@.len() && old(store)@[k].id == link_id;
                        let link = final(store)@[k];
                        &&& final(store)@ == old(store)@.update(k, link)
                        &&& link.id == link_id
                        &&& has_data(link, input)
                        &&& link.link_path@ == old(store)@[k].link_path@
                        &&& url_join_ok(base_url@, link.link_path@)
                        &&& resource_matches(res, link, url_join(base_url@, link.link_path@))
                    })
                },
                Err(e) => {
                    &&& (e == Error::NotFound || e == Error::BadLinkConfiguration)
                    &&& (e == Error::NotFound ==> !old(store).spec_has_id(link_id)
                        && *final(store) == *old(store))
                    &&& (e == Error::BadLinkConfiguration ==> old(store).spec_has_id(link_id)
                        && ({
                        let k = choose|k: int|
                            0 <= k < old(store)@.len() && old(store)@[k].id == link_id;
                        let link = final(store)@[k];
                        &&& final(store)@ == old(store)@.update(k, link)
                        &&& link.id == link_id
                        &&& has_data(link, input)
                        &&& !url_join_ok(base_url@, link.link_path@)
                    }))
                },
            },
    {
        match store.update_link(link_id, input) {
            Some(link) => match link.serialize(base_url) {
                Some(res) => Ok(res),
                None => Err(Error::BadLinkConfiguration),
            },
            None => Err(Error::NotFound),
        }
    }
}

} // verus!
