//! A blog kept as independently addressed records: users, posts linked into a
//! singly-linked chain from the newest post back to a genesis post, and the
//! blog record that names the current head.
//!
//! Every operation takes the signing actor explicitly, checks it against the
//! record's authority, and either changes the records and reports what it did
//! or changes nothing and returns a `BlogError`.
use vstd::prelude::*;

pub mod address;
pub mod chain;
pub mod ledger;
pub mod state;
pub mod table;

pub use address::Address;
pub use ledger::{
    create_post, delete_latest_post, delete_post, init_blog, signup_user, update_post, update_user,
    Ledger,
};
pub use state::{
    fits, MAX_AVATAR_LEN, MAX_CONTENT_LEN, MAX_NAME_LEN, MAX_TITLE_LEN, BlogError, BlogState, CreatePost, DeleteLatestPost, DeletePost, InitBlog, PostEvent, PostState,
    SignupUser, UpdatePost, UpdateUser, UserState,
};

verus! {

} // verus!
