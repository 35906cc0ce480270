//! Listing a gallery folder: the first works come with the folder's page,
//! the others are fetched by offset until the site says that none follow.
//! Fetching is the caller's part.

use vstd::prelude::*;
use crate::error::Error;
use crate::types::deviation::Deviation;
use crate::types::list_folder_contents_response::ListFolderContentsResponse;
use crate::types::scraped_webpage_info::{entity_by_id, ScrapedWebPageInfo};

verus! {

/// The most fetches by offset that one listing makes.
pub const MAX_FOLDER_FETCHES: u32 = 10_000;

/// A gallery folder and the works in it.
#[derive(Clone, Debug, PartialEq, Eq)]
pub struct Folder {
    /// The identity of the folder.
    pub id: u64,
    /// The name of the folder.
    pub name: String,
    /// The name of the user who owns the folder.
    pub owner_name: String,
    /// The identities of the works in the folder, in order.
    pub deviation_ids: Vec<u64>,
}

/// What to ask the listing endpoint for.
#[derive(Clone, Debug, PartialEq, Eq)]
pub struct FolderRequest {
    /// The name of the user who owns the folder.
    pub username: String,
    /// The identity of the folder.
    pub folder_id: u64,
    /// The number of works that are known already.
    pub offset: u64,
    /// The CSRF token of the folder's page.
    pub csrf_token: String,
}

/// A listing under way.
#[derive(Clone, Debug, PartialEq, Eq)]
pub struct FolderWalk {
    /// The folder, with the works that are known so far.
    pub folder: Folder,
    /// The CSRF token of the folder's page.
    pub csrf_token: String,
    /// Whether the site said that more works follow.
    pub has_more: bool,
    /// The number of answers taken in.
    pub fetches: u32,
}

/// The identities of the works, in order.
pub open spec fn ids_of(works: Seq<Deviation>) -> Seq<u64> {
    Seq::new(works.len(), |i: int| works[i].deviation_id)
}

/// What a folder's page must hold for a listing, in the order in which it
/// is looked for: the selected folder, the folder's stream, the folder
/// entity, and the user entity of its owner. The result names the first
/// that is missing.
pub open spec fn folder_page_check(page: ScrapedWebPageInfo) -> Option<Seq<char>> {
    match page.gallection_section {
        None => Some("gallectionSection"@),
        Some(section) => {
            let id = section.selected_folder_id;
            if page.folder_stream(id) is None {
                Some("folder deviations stream"@)
            } else if page.entities is None || entity_by_id(
                page.entities.unwrap().gallery_folder,
                id,
            ) is None {
                Some("galleryFolder"@)
            } else if entity_by_id(
                page.entities.unwrap().user,
                entity_by_id(page.entities.unwrap().gallery_folder, id).unwrap().owner,
            ) is None {
                Some("user"@)
            } else {
                None
            }
        },
    }
}

impl FolderWalk {
    /// Whether the listing goes on: the site said that more works follow,
    /// and the limit of fetches is not reached.
    pub open spec fn wants_more(&self) -> bool {
        self.has_more && self.fetches < MAX_FOLDER_FETCHES
    }

    /// Begins the listing of the folder that `page` shows.
    pub fn start(page: &ScrapedWebPageInfo) -> (walk: Result<FolderWalk, Error>)
        ensures
            match folder_page_check(*page) {
                Some(name) => walk is Err && walk.unwrap_err() is MissingField
                    && walk.unwrap_err()->name@ == name,
                None => {
                    let id = page.gallection_section.unwrap().selected_folder_id;
                    let stream = page.folder_stream(id).unwrap();
                    let entity = entity_by_id(page.entities.unwrap().gallery_folder, id).unwrap();
                    let owner = entity_by_id(page.entities.unwrap().user, entity.owner).unwrap();
                    &&& walk is Ok
                    &&& walk.unwrap().folder.id == id
                    &&& walk.unwrap().folder.name@ == entity.name@
                    &&& walk.unwrap().folder.owner_name@ == owner.username@
                    &&& walk.unwrap().folder.deviation_ids@ == stream.items@
                    &&& walk.unwrap().csrf_token@ == page.config.csrf_token@
                    &&& walk.unwrap().has_more == stream.has_more
                    &&& walk.unwrap().fetches == 0
                },
            },
    {
        let id = match page.get_current_folder_id() {
            Some(id) => id,
            None => {
                return Err(Error::MissingField { name: "gallectionSection" });
            },
        };
        let stream = match page.get_folder_deviations_stream(id) {
            Some(stream) => stream,
            None => {
                return Err(Error::MissingField { name: "folder deviations stream" });
            },
        };
        let entity = match page.get_gallery_folder_entity(id) {
            Some(entity) => entity,
            None => {
                return Err(Error::MissingField { name: "galleryFolder" });
            },
        };
        let owner = match page.get_user_entity(entity.owner) {
            Some(owner) => owner,
            None => {
                return Err(Error::MissingField { name: "user" });
            },
        };
        Ok(
            FolderWalk {
                folder: Folder {
                    id,
                    name: entity.name.clone(),
                    owner_name: owner.username.clone(),
                    deviation_ids: stream.items.clone(),
                },
                csrf_token: page.config.csrf_token.clone(),
                has_more: stream.has_more,
                fetches: 0,
            },
        )
    }

    /// What to fetch next: the works from the number of known ones on.
    /// There is nothing to fetch once the site said that no works follow, or
    /// at the limit of fetches.
    pub fn next_request(&self) -> (request: Option<FolderRequest>)
        ensures
            request is Some == self.wants_more(),
            request is Some ==> {
                &&& request.unwrap().username@ == self.folder.owner_name@
                &&& request.unwrap().folder_id == self.folder.id
                &&& request.unwrap().offset == self.folder.deviation_ids@.len()
                &&& request.unwrap().csrf_token@ == self.csrf_token@
            },
    {
        if self.has_more && self.fetches < MAX_FOLDER_FETCHES {
            Some(
                FolderRequest {
                    username: self.folder.owner_name.clone(),
                    folder_id: self.folder.id,
                    offset: self.folder.deviation_ids.len() as u64,
                    csrf_token: self.csrf_token.clone(),
                },
            )
        } else {
            None
        }
    }

    /// Takes in an answer: its works follow those that are known, and its
    /// flag says whether more follow.
    pub fn accept(&mut self, response: &ListFolderContentsResponse)
        requires
            old(self).wants_more(),
        ensures
            final(self).folder.deviation_ids@ == old(self).folder.deviation_ids@ + ids_of(
                response.results@,
            ),
            final(self).has_more == response.has_more,
            final(self).fetches == old(self).fetches + 1,
            final(self).folder.id == old(self).folder.id,
            final(self).folder.name == old(self).folder.name,
            final(self).folder.owner_name == old(self).folder.owner_name,
            final(self).csrf_token == old(self).csrf_token,
    {
        let mut i: usize = 0;
        assert(ids_of(response.results@).take(0).len() == 0);
        assert(self.folder.deviation_ids@ + Seq::<u64>::empty() == self.folder.deviation_ids@);
        while i < response.results.len()
            invariant
                i <= response.results.len(),
                self.folder.deviation_ids@ == old(self).folder.deviation_ids@ + ids_of(
                    response.results@,
                ).take(i as int),
                self.has_more == old(self).has_more,
                self.fetches == old(self).fetches,
                self.folder.id == old(self).folder.id,
                self.folder.name == old(self).folder.name,
                self.folder.owner_name == old(self).folder.owner_name,
                self.csrf_token == old(self).csrf_token,
            decreases response.results.len() - i,
        {
            let ghost all = ids_of(response.results@);
            assert(all.take(i + 1) == all.take(i as int).push(
                response.results@[i as int].deviation_id,
            ));
            self.folder.deviation_ids.push(response.results[i].deviation_id);
            i += 1;
        }
        assert(ids_of(response.results@).take(response.results.len() as int) == ids_of(
            response.results@,
        ));
        self.has_more = response.has_more;
        self.fetches = self.fetches + 1;
    }

    /// Ends the listing: the folder with the works that are known.
    pub fn into_folder(self) -> (folder: Folder)
        ensures
            folder == self.folder,
    {
        self.folder
    }
}

} // verus!
