//! The video catalog as the pipeline sees it: the decoded payloads of the
//! catalog's responses, and the decisions taken on them (which playlist holds a
//! channel's uploads, which videos a page lists, when the listing is complete).
//! Fetching and JSON decoding happen outside; they hand these values in.
use vstd::prelude::*;

verus! {

/// Content details of a video: its duration in whole seconds.
#[derive(Clone, Debug)]
pub struct VideoContentDetails {
    pub duration_secs: u64,
}

/// Descriptive text of a video.
#[derive(Clone, Debug)]
pub struct VideoSnippet {
    pub title: String,
    pub description: String,
}

/// The part of a catalog video that the pipeline uses.
#[derive(Clone, Debug)]
pub struct Video {
    pub id: String,
    pub content_details: VideoContentDetails,
    pub snippet: VideoSnippet,
}

/// Content details of a playlist entry: the video it refers to.
#[derive(Clone, Debug)]
pub struct PlaylistItemContentDetails {
    pub video_id: String,
}

/// One entry of a playlist page.
#[derive(Clone, Debug)]
pub struct PlaylistItem {
    pub content_details: PlaylistItemContentDetails,
}

/// One page of a playlist listing, with the token of the next page, if any.
#[derive(Clone, Debug)]
pub struct PlaylistItemsListResponsePayload {
    pub items: Vec<PlaylistItem>,
    pub next_page_token: Option<String>,
}

/// One channel found for a handle: the identifier of its uploads playlist,
/// when the response carried one as a string.
#[derive(Clone, Debug)]
pub struct ChannelItem {
    pub uploads_playlist_id: Option<String>,
}

/// The channels found for a handle.
#[derive(Clone, Debug)]
pub struct ChannelListResponse {
    pub items: Vec<ChannelItem>,
}

/// Why the catalog's answers could not be used.
#[derive(Clone, Copy, Debug, PartialEq, Eq, Structural)]
pub enum CatalogError {
    /// No channel was found, or the first one names no uploads playlist.
    NoUploadsPlaylist,
}

/// The uploads playlist of the first channel found, if it has one.
pub open spec fn uploads_playlist(r: ChannelListResponse) -> Option<String> {
    if r.items@.len() > 0 {
        r.items@[0].uploads_playlist_id
    } else {
        None
    }
}

/// The video identifiers listed by a page, in page order.
pub open spec fn page_video_ids(p: PlaylistItemsListResponsePayload) -> Seq<String> {
    p.items@.map_values(|i: PlaylistItem| i.content_details.video_id)
}

/// The identifier of the playlist holding the channel's uploads.
pub fn get_playlist_id(channel_info: &ChannelListResponse) -> (r: Result<String, CatalogError>)
    ensures
        match uploads_playlist(*channel_info) {
            Some(id) => r == Ok::<String, CatalogError>(id),
            None => r == Err::<String, CatalogError>(CatalogError::NoUploadsPlaylist),
        },
{
    if channel_info.items.len() == 0 {
        return Err(CatalogError::NoUploadsPlaylist);
    }
    match &channel_info.items[0].uploads_playlist_id {
        Some(id) => Ok(id.clone()),
        None => Err(CatalogError::NoUploadsPlaylist),
    }
}

/// The video identifiers of one page, in order, and the next page's token.
pub fn get_playlist_items(page: &PlaylistItemsListResponsePayload) -> (r: (Vec<String>, Option<String>))
    ensures
        r.0@ == page_video_ids(*page),
        r.1 == page.next_page_token,
{
    let mut ids: Vec<String> = Vec::new();
    let mut i: usize = 0;
    while i < page.items.len()
        invariant
            i <= page.items@.len(),
            ids@ == page_video_ids(*page).take(i as int),
        decreases page.items@.len() - i,
    {
        ids.push(page.items[i].content_details.video_id.clone());
        i = i + 1;
        assert(ids@ =~= page_video_ids(*page).take(i as int));
    }
    assert(ids@ =~= page_video_ids(*page));
    let token = match &page.next_page_token {
        Some(t) => Some(t.clone()),
        None => None,
    };
    (ids, token)
}

/// The concatenation of the pages, in page order.
pub open spec fn concat_pages(pages: Seq<Seq<String>>) -> Seq<String>
    decreases pages.len(),
{
    if pages.len() == 0 {
        Seq::empty()
    } else {
        concat_pages(pages.drop_last()) + pages.last()
    }
}

/// The number of identifiers on all pages together.
pub open spec fn total_len(pages: Seq<Seq<String>>) -> nat
    decreases pages.len(),
{
    if pages.len() == 0 {
        0
    } else {
        total_len(pages.drop_last()) + pages.last().len()
    }
}

/// No identifier occurs twice across the pages, within a page or between two.
pub open spec fn pages_distinct(pages: Seq<Seq<String>>) -> bool {
    forall|j1: int, k1: int, j2: int, k2: int|
        0 <= j1 < pages.len() && 0 <= k1 < pages[j1].len() && 0 <= j2 < pages.len() && 0 <= k2 < pages[j2].len()
            && #[trigger] pages[j1][k1] == #[trigger] pages[j2][k2] ==> j1 == j2 && k1 == k2
}

/// Paging neither drops nor repeats: the concatenated pages hold as many
/// identifiers as the pages together, every identifier of every page occurs in
/// it, it holds nothing else, and when the pages share no identifier it has no
/// duplicate.
pub proof fn lemma_pages_no_drop_no_duplicate(pages: Seq<Seq<String>>)
    ensures
        concat_pages(pages).len() == total_len(pages),
        forall|j: int, k: int|
            0 <= j < pages.len() && 0 <= k < pages[j].len() ==> concat_pages(pages).contains(#[trigger] pages[j][k]),
        forall|i: int|
            0 <= i < concat_pages(pages).len() ==> exists|j: int, k: int|
                0 <= j < pages.len() && 0 <= k < pages[j].len() && #[trigger] concat_pages(pages)[i] == pages[j][k],
        pages_distinct(pages) ==> concat_pages(pages).no_duplicates(),
    decreases pages.len(),
{
    if pages.len() > 0 {
        let front = pages.drop_last();
        let last = pages.last();
        let pre = concat_pages(front);
        let all = concat_pages(pages);
        lemma_pages_no_drop_no_duplicate(front);
        assert(all == pre + last);
        assert forall|j: int, k: int| 0 <= j < pages.len() && 0 <= k < pages[j].len() implies all.contains(
            #[trigger] pages[j][k],
        ) by {
            if j < pages.len() - 1 {
                assert(front[j] == pages[j]);
                assert(pre.contains(front[j][k]));
                let i = choose|i: int| 0 <= i < pre.len() && pre[i] == front[j][k];
                assert(all[i] == pages[j][k]);
            } else {
                assert(all[pre.len() + k] == pages[j][k]);
            }
        }
        assert forall|i: int| 0 <= i < all.len() implies exists|j: int, k: int|
            0 <= j < pages.len() && 0 <= k < pages[j].len() && #[trigger] all[i] == pages[j][k] by {
            if i < pre.len() {
                let (j, k) = choose|j: int, k: int|
                    0 <= j < front.len() && 0 <= k < front[j].len() && #[trigger] pre[i] == front[j][k];
                assert(front[j] == pages[j]);
                assert(all[i] == pages[j][k]);
            } else {
                assert(all[i] == pages[pages.len() - 1][i - pre.len()]);
            }
        }
        if pages_distinct(pages) {
            assert(pages_distinct(front)) by {
                assert forall|j1: int, k1: int, j2: int, k2: int|
                    0 <= j1 < front.len() && 0 <= k1 < front[j1].len() && 0 <= j2 < front.len() && 0 <= k2
                        < front[j2].len() && #[trigger] front[j1][k1] == #[trigger] front[j2][k2] implies j1 == j2
                    && k1 == k2 by {
                    assert(front[j1] == pages[j1] && front[j2] == pages[j2]);
                }
            }
            assert forall|a: int, b: int| 0 <= a < all.len() && 0 <= b < all.len() && a != b implies all[a]
                != all[b] by {
                if a < pre.len() && b < pre.len() {
                    assert(all[a] == pre[a] && all[b] == pre[b]);
                } else if a >= pre.len() && b >= pre.len() {
                    let n = pages.len() - 1;
                    assert(all[a] == pages[n][a - pre.len()]);
                    assert(all[b] == pages[n][b - pre.len()]);
                } else {
                    let (x, y) = if a < pre.len() { (a, b) } else { (b, a) };
                    let (j, k) = choose|j: int, k: int|
                        0 <= j < front.len() && 0 <= k < front[j].len() && #[trigger] pre[x] == front[j][k];
                    let n = pages.len() - 1;
                    assert(front[j] == pages[j]);
                    assert(all[x] == pages[j][k]);
                    assert(all[y] == pages[n][y - pre.len()]);
                }
            }
        }
    }
}

/// What the driver must fetch next.
#[derive(Debug)]
pub enum ListingAction {
    /// Fetch the page with this token (the first page when none).
    FetchPage(Option<String>),
    /// The last page has been received.
    Done,
}

/// Enumeration of a channel's uploads, one page at a time. `pages` records the
/// identifiers of each page received, in order.
pub struct ChannelListing {
    pub video_ids: Vec<String>,
    pub next_page: Option<String>,
    pub done: bool,
    pub pages: Ghost<Seq<Seq<String>>>,
}

impl ChannelListing {
    /// The collected identifiers are exactly the pages received, concatenated
    /// in page order, with nothing dropped or repeated.
    pub open spec fn wf(&self) -> bool {
        &&& self.video_ids@ == concat_pages(self.pages@)
        &&& self.done ==> self.next_page.is_none()
    }

    /// A listing that has received nothing yet.
    pub fn new() -> (l: ChannelListing)
        ensures
            l.wf(),
            l.video_ids@.len() == 0,
            l.pages@.len() == 0,
            l.next_page.is_none(),
            !l.done,
    {
        ChannelListing { video_ids: Vec::new(), next_page: None, done: false, pages: Ghost(Seq::empty()) }
    }

    /// The page to fetch next, starting with the first one; done once a page
    /// came without a continuation token.
    pub fn next_request(&self) -> (a: ListingAction)
        ensures
            self.done ==> a is Done,
            !self.done ==> a == ListingAction::FetchPage(self.next_page),
    {
        if self.done {
            ListingAction::Done
        } else {
            match &self.next_page {
                Some(t) => ListingAction::FetchPage(Some(t.clone())),
                None => ListingAction::FetchPage(None),
            }
        }
    }

    /// Takes in the page that was fetched: appends its identifiers in order and
    /// remembers its continuation token; a page without one ends the listing.
    pub fn on_page(&mut self, page: &PlaylistItemsListResponsePayload)
        requires
            old(self).wf(),
            !old(self).done,
        ensures
            final(self).wf(),
            final(self).pages@ == old(self).pages@.push(page_video_ids(*page)),
            final(self).video_ids@ == old(self).video_ids@ + page_video_ids(*page),
            final(self).next_page == page.next_page_token,
            final(self).done == page.next_page_token.is_none(),
    {
        let (ids, token) = get_playlist_items(page);
        let ghost before = self.video_ids@;
        let mut i: usize = 0;
        while i < ids.len()
            invariant
                i <= ids@.len(),
                self.video_ids@ == before + ids@.take(i as int),
                self.pages == old(self).pages,
                before == concat_pages(self.pages@),
            decreases ids@.len() - i,
        {
            self.video_ids.push(ids[i].clone());
            i = i + 1;
            assert(self.video_ids@ =~= before + ids@.take(i as int));
        }
        assert(ids@.take(ids@.len() as int) =~= ids@);
        let ghost pages = self.pages@.push(ids@);
        assert(pages.drop_last() =~= self.pages@);
        self.pages = Ghost(pages);
        self.done = token.is_none();
        self.next_page = token;
    }
}

} // verus!
