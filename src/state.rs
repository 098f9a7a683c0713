//! The shapes of the stored records and of the events that operations report.
use vstd::prelude::*;
use crate::address::Address;

verus! {

/// The blog record: the newest surviving post, and the actor who set the blog up.
#[derive(Clone, Copy, Debug)]
pub struct BlogState {
    pub current_post_key: Address,
    pub authority: Address,
}

/// The most bytes a post title may take.
pub const MAX_TITLE_LEN: usize = 50;

/// The most bytes a post's content may take.
pub const MAX_CONTENT_LEN: usize = 500;

/// The most bytes a user name may take.
pub const MAX_NAME_LEN: usize = 40;

/// The most bytes an avatar reference may take.
pub const MAX_AVATAR_LEN: usize = 120;

/// The length in bytes of the UTF-8 encoding of `s`.
pub open spec fn byte_len(s: Seq<char>) -> nat {
    vstd::utf8::encode_utf8(s).len()
}

/// Whether `s` takes at most `max` bytes.
pub fn fits(s: &String, max: usize) -> (r: bool)
    ensures
        r == (byte_len(s@) <= max),
{
    let bytes = s.as_str().as_bytes();
    bytes.len() <= max
}

/// A registered user: profile fields and the actor that registered it.
#[derive(Debug)]
pub struct UserState {
    pub name: String,
    pub avatar: String,
    pub authority: Address,
}

/// A post. `pre_post_key` is the next older surviving post; only the genesis
/// post holds `None`.
#[derive(Debug)]
pub struct PostState {
    pub title: String,
    pub content: String,
    pub user: Address,
    pub pre_post_key: Option<Address>,
    pub authority: Address,
}

/// What an operation on posts reports to outside indexers.
#[derive(Debug)]
pub struct PostEvent {
    pub label: String,
    pub post_id: Address,
    pub next_post_id: Option<Address>,
}

/// The label of an event for a new post.
pub open spec fn create_label() -> Seq<char> {
    "CREATE"@
}

/// The label of an event for changed post text.
pub open spec fn update_label() -> Seq<char> {
    "UPDATE"@
}

/// The label of an event for a removed post.
pub open spec fn delete_label() -> Seq<char> {
    "DELETE"@
}

impl PostEvent {
    /// The event of a post created at `post_id`.
    pub fn created(post_id: Address) -> (r: PostEvent)
        ensures
            r.label@ == create_label(),
            r.post_id == post_id,
            r.next_post_id.is_none(),
    {
        PostEvent { label: String::from_str("CREATE"), post_id, next_post_id: None }
    }

    /// The event of the post at `post_id` having its text replaced.
    pub fn updated(post_id: Address) -> (r: PostEvent)
        ensures
            r.label@ == update_label(),
            r.post_id == post_id,
            r.next_post_id.is_none(),
    {
        PostEvent { label: String::from_str("UPDATE"), post_id, next_post_id: None }
    }

    /// The event of the post at `post_id` being removed; `next_post_id` is the
    /// newer neighbour that was relinked, if the post was not the head.
    pub fn deleted(post_id: Address, next_post_id: Option<Address>) -> (r: PostEvent)
        ensures
            r.label@ == delete_label(),
            r.post_id == post_id,
            r.next_post_id == next_post_id,
    {
        PostEvent { label: String::from_str("DELETE"), post_id, next_post_id }
    }
}

/// Why an operation was refused. A refused operation changes nothing.
#[derive(Clone, Copy, Debug, PartialEq, Eq, Structural)]
pub enum BlogError {
    /// An address holds no record of the expected kind.
    NotFound,
    /// The signer is not the record's authority.
    Unauthorized,
    /// A record was to be created at an address that already holds one.
    DuplicateAddress,
    /// The post named as the newer neighbour does not point at the post to delete.
    IntegrityViolation,
    /// The post to remove as the newest one is not the blog's current head.
    NotLatest,
    /// The genesis post anchors the chain and cannot be deleted.
    GenesisPost,
    /// A text field is longer than its record has room for.
    TooLong,
}

/// Addresses for setting up the blog: its record, the genesis post, and the signer.
#[derive(Clone, Copy, Debug)]
pub struct InitBlog {
    pub blog_account: Address,
    pub genesis_post_account: Address,
    pub authority: Address,
}

/// Addresses for registering a user at `user_account`.
#[derive(Clone, Copy, Debug)]
pub struct SignupUser {
    pub user_account: Address,
    pub authority: Address,
}

/// Addresses for changing the profile of the user at `user_account`.
#[derive(Clone, Copy, Debug)]
pub struct UpdateUser {
    pub user_account: Address,
    pub authority: Address,
}

/// Addresses for a new post at `post_account`, written as the user at `user_account`.
#[derive(Clone, Copy, Debug)]
pub struct CreatePost {
    pub post_account: Address,
    pub user_account: Address,
    pub blog_account: Address,
    pub authority: Address,
}

/// Addresses for replacing the text of the post at `post_account`.
#[derive(Clone, Copy, Debug)]
pub struct UpdatePost {
    pub post_account: Address,
    pub authority: Address,
}

/// Addresses for removing the post at `post_account` from inside the chain;
/// `next_post_account` is the newer post that points at it.
#[derive(Clone, Copy, Debug)]
pub struct DeletePost {
    pub post_account: Address,
    pub next_post_account: Address,
    pub authority: Address,
}

/// Addresses for removing the newest post, at `post_account`.
#[derive(Clone, Copy, Debug)]
pub struct DeleteLatestPost {
    pub post_account: Address,
    pub blog_account: Address,
    pub authority: Address,
}

} // verus!
