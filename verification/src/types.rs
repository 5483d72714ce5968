//! The read-model records the API returns: authors, channels, posts and
//! revisions, plus the plain payload shapes of admin endpoints.
//!
//! These are plain data carriers. Markdown rendering of description text
//! is a collaborator outside this library: constructors take the rendered
//! HTML alongside the source text.

use vstd::prelude::*;

verus! {

/// Detailed information about an author.
#[derive(Debug, Clone)]
pub struct AuthorInfo {
    pub uuid: String,
    pub name: String,
    pub created_date: u64,
    pub description_text: String,
    pub description_html: String,
}

impl AuthorInfo {
    pub fn new(uuid: &str, name: &str, created_date: u64, description_text: &str,
        description_html: &str) -> (r: AuthorInfo)
        ensures
            r.uuid@ == uuid@,
            r.name@ == name@,
            r.created_date == created_date,
            r.description_text@ == description_text@,
            r.description_html@ == description_html@,
    {
        AuthorInfo {
            uuid: uuid.to_owned(),
            name: name.to_owned(),
            created_date,
            description_text: description_text.to_owned(),
            description_html: description_html.to_owned(),
        }
    }

    pub fn uuid(&self) -> (r: &str)
        ensures
            r@ == self.uuid@,
    {
        self.uuid.as_str()
    }

    pub fn name(&self) -> (r: &str)
        ensures
            r@ == self.name@,
    {
        self.name.as_str()
    }

    pub fn created_date(&self) -> (r: u64)
        ensures
            r == self.created_date,
    {
        self.created_date
    }

    pub fn description_text(&self) -> (r: &str)
        ensures
            r@ == self.description_text@,
    {
        self.description_text.as_str()
    }

    pub fn description_html(&self) -> (r: &str)
        ensures
            r@ == self.description_html@,
    {
        self.description_html.as_str()
    }
}

/// Summary information about an author, embedded in other records.
#[derive(Debug, Clone)]
pub struct AuthorSummary {
    pub uuid: String,
    pub name: String,
}

impl AuthorSummary {
    pub fn new(uuid: &str, name: &str) -> (r: AuthorSummary)
        ensures
            r.uuid@ == uuid@,
            r.name@ == name@,
    {
        AuthorSummary { uuid: uuid.to_owned(), name: name.to_owned() }
    }

    pub fn uuid(&self) -> (r: &str)
        ensures
            r@ == self.uuid@,
    {
        self.uuid.as_str()
    }

    pub fn name(&self) -> (r: &str)
        ensures
            r@ == self.name@,
    {
        self.name.as_str()
    }

    /// A field-by-field copy.
    pub fn duplicate(&self) -> (r: AuthorSummary)
        ensures
            r.uuid@ == self.uuid@,
            r.name@ == self.name@,
    {
        AuthorSummary { uuid: self.uuid.clone(), name: self.name.clone() }
    }
}

/// Detailed information about a channel.
#[derive(Debug, Clone)]
pub struct ChannelInfo {
    pub uuid: String,
    pub handle: String,
    pub name: String,
    pub created_date: u64,
    pub lang: String,
    pub description_text: String,
    pub description_html: String,
}

impl ChannelInfo {
    pub fn new(uuid: &str, handle: &str, name: &str, created_date: u64, lang: &str,
        description_text: &str, description_html: &str) -> (r: ChannelInfo)
        ensures
            r.uuid@ == uuid@,
            r.handle@ == handle@,
            r.name@ == name@,
            r.created_date == created_date,
            r.lang@ == lang@,
            r.description_text@ == description_text@,
            r.description_html@ == description_html@,
    {
        ChannelInfo {
            uuid: uuid.to_owned(),
            handle: handle.to_owned(),
            name: name.to_owned(),
            created_date,
            lang: lang.to_owned(),
            description_text: description_text.to_owned(),
            description_html: description_html.to_owned(),
        }
    }

    pub fn uuid(&self) -> (r: &str)
        ensures
            r@ == self.uuid@,
    {
        self.uuid.as_str()
    }

    pub fn handle(&self) -> (r: &str)
        ensures
            r@ == self.handle@,
    {
        self.handle.as_str()
    }

    pub fn name(&self) -> (r: &str)
        ensures
            r@ == self.name@,
    {
        self.name.as_str()
    }

    pub fn created_date(&self) -> (r: u64)
        ensures
            r == self.created_date,
    {
        self.created_date
    }

    pub fn lang(&self) -> (r: &str)
        ensures
            r@ == self.lang@,
    {
        self.lang.as_str()
    }

    pub fn description_text(&self) -> (r: &str)
        ensures
            r@ == self.description_text@,
    {
        self.description_text.as_str()
    }

    pub fn description_html(&self) -> (r: &str)
        ensures
            r@ == self.description_html@,
    {
        self.description_html.as_str()
    }
}

/// Summary information about a channel, embedded in other records.
#[derive(Debug, Clone)]
pub struct ChannelSummary {
    pub uuid: String,
    pub handle: String,
    pub name: String,
    pub lang: String,
}

impl ChannelSummary {
    pub fn new(uuid: &str, handle: &str, name: &str, lang: &str) -> (r: ChannelSummary)
        ensures
            r.uuid@ == uuid@,
            r.handle@ == handle@,
            r.name@ == name@,
            r.lang@ == lang@,
    {
        ChannelSummary {
            uuid: uuid.to_owned(),
            handle: handle.to_owned(),
            name: name.to_owned(),
            lang: lang.to_owned(),
        }
    }

    pub fn uuid(&self) -> (r: &str)
        ensures
            r@ == self.uuid@,
    {
        self.uuid.as_str()
    }

    pub fn handle(&self) -> (r: &str)
        ensures
            r@ == self.handle@,
    {
        self.handle.as_str()
    }

    pub fn name(&self) -> (r: &str)
        ensures
            r@ == self.name@,
    {
        self.name.as_str()
    }

    pub fn lang(&self) -> (r: &str)
        ensures
            r@ == self.lang@,
    {
        self.lang.as_str()
    }

    /// A field-by-field copy.
    pub fn duplicate(&self) -> (r: ChannelSummary)
        ensures
            r.uuid@ == self.uuid@,
            r.handle@ == self.handle@,
            r.name@ == self.name@,
            r.lang@ == self.lang@,
    {
        ChannelSummary {
            uuid: self.uuid.clone(),
            handle: self.handle.clone(),
            name: self.name.clone(),
            lang: self.lang.clone(),
        }
    }
}

/// One revision of a post.
#[derive(Debug, Clone)]
pub struct RevisionInfo {
    pub uuid: String,
    pub author: AuthorSummary,
    pub created_date: u64,
    pub title: String,
    pub revision_text: String,
}

impl RevisionInfo {
    pub fn new(uuid: &str, author: &AuthorSummary, created_date: u64, title: &str,
        revision_text: &str) -> (r: RevisionInfo)
        ensures
            r.uuid@ == uuid@,
            r.author.uuid@ == author.uuid@,
            r.author.name@ == author.name@,
            r.created_date == created_date,
            r.title@ == title@,
            r.revision_text@ == revision_text@,
    {
        RevisionInfo {
            uuid: uuid.to_owned(),
            author: author.duplicate(),
            created_date,
            title: title.to_owned(),
            revision_text: revision_text.to_owned(),
        }
    }

    pub fn uuid(&self) -> (r: &str)
        ensures
            r@ == self.uuid@,
    {
        self.uuid.as_str()
    }

    pub fn author(&self) -> (r: &AuthorSummary)
        ensures
            r == &self.author,
    {
        &self.author
    }

    pub fn created_date(&self) -> (r: u64)
        ensures
            r == self.created_date,
    {
        self.created_date
    }

    pub fn title(&self) -> (r: &str)
        ensures
            r@ == self.title@,
    {
        self.title.as_str()
    }

    pub fn revision_text(&self) -> (r: &str)
        ensures
            r@ == self.revision_text@,
    {
        self.revision_text.as_str()
    }
}

/// Detailed information about a post: its current revision flattened
/// together with the channel, tags and author.
#[derive(Debug, Clone)]
pub struct PostInfo {
    pub post_uuid: String,
    pub channel: ChannelSummary,
    pub tags: Vec<String>,
    pub revision_uuid: String,
    pub revision_date: u64,
    pub title: String,
    pub revision_text: String,
    pub author: AuthorSummary,
}

impl PostInfo {
    pub fn new(uuid: &str, channel: &ChannelSummary, tags: Vec<String>, revision: &RevisionInfo,
        author: &AuthorSummary) -> (r: PostInfo)
        ensures
            r.post_uuid@ == uuid@,
            r.channel.uuid@ == channel.uuid@,
            r.channel.handle@ == channel.handle@,
            r.channel.name@ == channel.name@,
            r.channel.lang@ == channel.lang@,
            r.tags@ == tags@,
            r.revision_uuid@ == revision.uuid@,
            r.revision_date == revision.created_date,
            r.title@ == revision.title@,
            r.revision_text@ == revision.revision_text@,
            r.author.uuid@ == author.uuid@,
            r.author.name@ == author.name@,
    {
        PostInfo {
            post_uuid: uuid.to_owned(),
            channel: channel.duplicate(),
            tags,
            revision_uuid: revision.uuid.clone(),
            revision_date: revision.created_date,
            title: revision.title.clone(),
            revision_text: revision.revision_text.clone(),
            author: author.duplicate(),
        }
    }

    pub fn post_uuid(&self) -> (r: &str)
        ensures
            r@ == self.post_uuid@,
    {
        self.post_uuid.as_str()
    }

    pub fn channel(&self) -> (r: &ChannelSummary)
        ensures
            r == &self.channel,
    {
        &self.channel
    }

    pub fn tags(&self) -> (r: &Vec<String>)
        ensures
            r == &self.tags,
    {
        &self.tags
    }

    pub fn revision_uuid(&self) -> (r: &str)
        ensures
            r@ == self.revision_uuid@,
    {
        self.revision_uuid.as_str()
    }

    pub fn revision_date(&self) -> (r: u64)
        ensures
            r == self.revision_date,
    {
        self.revision_date
    }

    pub fn title(&self) -> (r: &str)
        ensures
            r@ == self.title@,
    {
        self.title.as_str()
    }

    pub fn revision_text(&self) -> (r: &str)
        ensures
            r@ == self.revision_text@,
    {
        self.revision_text.as_str()
    }

    pub fn author(&self) -> (r: &AuthorSummary)
        ensures
            r == &self.author,
    {
        &self.author
    }
}

/// The payload of an admin page update.
#[derive(Debug, Clone)]
pub struct MsgMetaUpdate {
    pub page_name: String,
    pub title: String,
    pub text: String,
}

/// The response payload of a freshly minted invite: the serialized inner
/// envelope, handed out base64-encoded.
#[derive(Debug, Clone)]
pub struct NewInviteResult {
    pub invite: Vec<u8>,
}

} // verus!
