//! The blog's records and the operations on them.
use vstd::prelude::*;
use crate::address::Address;
use crate::chain::{
    chain_links, follow, lemma_chain_counts_posts, lemma_chain_drop_front, lemma_follow_walks_chain, lemma_chain_push, lemma_chain_same_links, lemma_chain_splice,
    with_prev,
};
use crate::state::{byte_len, create_label, delete_label, fits, update_label, MAX_AVATAR_LEN,
    MAX_CONTENT_LEN, MAX_NAME_LEN, MAX_TITLE_LEN,
    
    BlogError, BlogState, CreatePost, DeleteLatestPost, DeletePost, InitBlog, PostEvent, PostState,
    SignupUser, UpdatePost, UpdateUser, UserState,
};
use crate::table::Table;

verus! {

/// Every record of one blog: the blog record, its users and its posts.
pub struct Ledger {
    blog_key: Address,
    blog: BlogState,
    genesis: Address,
    users: Table<UserState>,
    posts: Table<PostState>,
    chain: Ghost<Seq<Address>>,
}

/// Whether every byte of `a` is zero.
pub open spec fn is_zero(a: Address) -> bool {
    forall|i: int| 0 <= i < 32 ==> a.bytes[i] == 0u8
}

impl Ledger {
    /// The address of the blog record.
    pub closed spec fn blog_key(&self) -> Address {
        self.blog_key
    }

    /// The newest surviving post.
    pub closed spec fn head(&self) -> Address {
        self.blog.current_post_key
    }

    /// The actor who set the blog up.
    pub closed spec fn blog_authority(&self) -> Address {
        self.blog.authority
    }

    /// The post created with the blog, at the far end of the chain.
    pub closed spec fn genesis(&self) -> Address {
        self.genesis
    }

    /// The users by address.
    pub closed spec fn users(&self) -> Map<Address, UserState> {
        self.users@
    }

    /// The posts by address.
    pub closed spec fn posts(&self) -> Map<Address, PostState> {
        self.posts@
    }

    /// Whether `a` holds a record of any kind.
    pub open spec fn holds(&self, a: Address) -> bool {
        a == self.blog_key() || self.users().contains_key(a) || self.posts().contains_key(a)
    }

    /// The records are well formed: no address holds two records, and the
    /// posts form one chain from the head to the genesis post.
    pub closed spec fn wf(&self) -> bool {
        &&& self.users.wf()
        &&& self.posts.wf()
        &&& chain_links(self.posts@, self.chain@)
        &&& self.chain@[0] == self.blog.current_post_key
        &&& self.chain@.last() == self.genesis
        &&& !self.users@.contains_key(self.blog_key)
        &&& !self.posts@.contains_key(self.blog_key)
        &&& forall|a: Address| !(#[trigger] self.users@.contains_key(a) && self.posts@.contains_key(a))
    }

    /// The blog record's address and owner, and the genesis post, are as in `other`.
    pub open spec fn blog_kept(&self, other: Ledger) -> bool {
        &&& self.blog_key() == other.blog_key()
        &&& self.blog_authority() == other.blog_authority()
        &&& self.genesis() == other.genesis()
    }
}

/// Post and user identity fields that existed before are the same after:
/// a post's author and user, and a user's owner.
pub open spec fn identities_kept(before: Ledger, after: Ledger) -> bool {
    &&& forall|a: Address|
        before.posts().contains_key(a) && #[trigger] after.posts().contains_key(a) ==> {
            &&& after.posts()[a].authority == before.posts()[a].authority
            &&& after.posts()[a].user == before.posts()[a].user
        }
    &&& forall|a: Address|
        before.users().contains_key(a) && #[trigger] after.users().contains_key(a)
            ==> after.users()[a].authority == before.users()[a].authority
}

/// Whether a user name and avatar reference fit their record.
pub open spec fn profile_fits(name: Seq<char>, avatar: Seq<char>) -> bool {
    byte_len(name) <= MAX_NAME_LEN && byte_len(avatar) <= MAX_AVATAR_LEN
}

/// Whether a post title and content fit their record.
pub open spec fn text_fits(title: Seq<char>, content: Seq<char>) -> bool {
    byte_len(title) <= MAX_TITLE_LEN && byte_len(content) <= MAX_CONTENT_LEN
}

/// Which error, if any, `signup_user` gives.
pub open spec fn signup_user_error(l: Ledger, ctx: SignupUser, name: Seq<char>, avatar: Seq<char>) -> Option<BlogError> {
    if l.holds(ctx.user_account) {
        Some(BlogError::DuplicateAddress)
    } else if !profile_fits(name, avatar) {
        Some(BlogError::TooLong)
    } else {
        None
    }
}

/// Which error, if any, `update_user` gives.
pub open spec fn update_user_error(l: Ledger, ctx: UpdateUser, name: Seq<char>, avatar: Seq<char>) -> Option<BlogError> {
    if !l.users().contains_key(ctx.user_account) {
        Some(BlogError::NotFound)
    } else if l.users()[ctx.user_account].authority != ctx.authority {
        Some(BlogError::Unauthorized)
    } else if !profile_fits(name, avatar) {
        Some(BlogError::TooLong)
    } else {
        None
    }
}

/// Which error, if any, `create_post` gives.
pub open spec fn create_post_error(l: Ledger, ctx: CreatePost, title: Seq<char>, content: Seq<char>) -> Option<BlogError> {
    if ctx.blog_account != l.blog_key() || !l.users().contains_key(ctx.user_account) {
        Some(BlogError::NotFound)
    } else if l.users()[ctx.user_account].authority != ctx.authority {
        Some(BlogError::Unauthorized)
    } else if l.holds(ctx.post_account) {
        Some(BlogError::DuplicateAddress)
    } else if !text_fits(title, content) {
        Some(BlogError::TooLong)
    } else {
        None
    }
}

/// Which error, if any, `update_post` gives.
pub open spec fn update_post_error(l: Ledger, ctx: UpdatePost, title: Seq<char>, content: Seq<char>) -> Option<BlogError> {
    if !l.posts().contains_key(ctx.post_account) {
        Some(BlogError::NotFound)
    } else if l.posts()[ctx.post_account].authority != ctx.authority {
        Some(BlogError::Unauthorized)
    } else if !text_fits(title, content) {
        Some(BlogError::TooLong)
    } else {
        None
    }
}

/// Which error, if any, `delete_post` gives.
pub open spec fn delete_post_error(l: Ledger, ctx: DeletePost) -> Option<BlogError> {
    if !l.posts().contains_key(ctx.post_account) {
        Some(BlogError::NotFound)
    } else if l.posts()[ctx.post_account].authority != ctx.authority {
        Some(BlogError::Unauthorized)
    } else if !l.posts().contains_key(ctx.next_post_account) {
        Some(BlogError::NotFound)
    } else if l.posts()[ctx.next_post_account].pre_post_key != Some(ctx.post_account) {
        Some(BlogError::IntegrityViolation)
    } else if l.posts()[ctx.post_account].pre_post_key.is_none() {
        Some(BlogError::GenesisPost)
    } else {
        None
    }
}

/// Which error, if any, `delete_latest_post` gives.
pub open spec fn delete_latest_post_error(l: Ledger, ctx: DeleteLatestPost) -> Option<BlogError> {
    if !l.posts().contains_key(ctx.post_account) {
        Some(BlogError::NotFound)
    } else if l.posts()[ctx.post_account].authority != ctx.authority {
        Some(BlogError::Unauthorized)
    } else if ctx.blog_account != l.blog_key() {
        Some(BlogError::NotFound)
    } else if ctx.post_account != l.head() {
        Some(BlogError::NotLatest)
    } else if l.posts()[ctx.post_account].pre_post_key.is_none() {
        Some(BlogError::GenesisPost)
    } else {
        None
    }
}

/// The genesis post as set up: empty text, no user, no author, no older post.
pub open spec fn is_genesis_post(p: PostState) -> bool {
    &&& p.title@.len() == 0
    &&& p.content@.len() == 0
    &&& is_zero(p.user)
    &&& is_zero(p.authority)
    &&& p.pre_post_key.is_none()
}

/// The same posts, each with the same older neighbour, and the same head.
pub open spec fn chain_shape_kept(before: Ledger, after: Ledger) -> bool {
    &&& after.head() == before.head()
    &&& after.posts().dom() == before.posts().dom()
    &&& forall|a: Address| #[trigger] after.posts().contains_key(a)
        ==> after.posts()[a].pre_post_key == before.posts()[a].pre_post_key
}

impl Ledger {
    /// Whether `a` holds a record of any kind.
    pub fn is_occupied(&self, a: &Address) -> (r: bool)
        requires
            self.wf(),
        ensures
            r == self.holds(*a),
    {
        a.same_as(&self.blog_key) || self.users.contains(a) || self.posts.contains(a)
    }

    /// The blog record.
    pub fn blog(&self) -> (r: &BlogState)
        ensures
            r.current_post_key == self.head(),
            r.authority == self.blog_authority(),
    {
        &self.blog
    }

    /// The address of the blog record.
    pub fn blog_account(&self) -> (r: Address)
        ensures
            r == self.blog_key(),
    {
        self.blog_key
    }

    /// The address of the genesis post.
    pub fn genesis_post_account(&self) -> (r: Address)
        ensures
            r == self.genesis(),
    {
        self.genesis
    }

    /// The address of the newest surviving post.
    pub fn current_post_key(&self) -> (r: Address)
        ensures
            r == self.head(),
    {
        self.blog.current_post_key
    }

    /// The actor who set the blog up.
    pub fn authority(&self) -> (r: Address)
        ensures
            r == self.blog_authority(),
    {
        self.blog.authority
    }

    /// The user at `a`, if any.
    pub fn user(&self, a: &Address) -> (r: Option<&UserState>)
        requires
            self.wf(),
        ensures
            match r {
                Some(u) => self.users().contains_key(*a) && *u == self.users()[*a],
                None => !self.users().contains_key(*a),
            },
    {
        self.users.get(a)
    }

    /// The post at `a`, if any.
    pub fn post(&self, a: &Address) -> (r: Option<&PostState>)
        requires
            self.wf(),
        ensures
            match r {
                Some(p) => self.posts().contains_key(*a) && *p == self.posts()[*a],
                None => !self.posts().contains_key(*a),
            },
    {
        self.posts.get(a)
    }
}

/// Sets the blog up: its record at `blog_account`, owned by the signer, and a
/// genesis post at `genesis_post_account` as the head of an otherwise empty chain.
pub fn init_blog(ctx: InitBlog) -> (r: Result<Ledger, BlogError>)
    ensures
        match r {
            Ok(l) => {
                &&& ctx.blog_account != ctx.genesis_post_account
                &&& l.wf()
                &&& l.blog_key() == ctx.blog_account
                &&& l.head() == ctx.genesis_post_account
                &&& l.genesis() == ctx.genesis_post_account
                &&& l.blog_authority() == ctx.authority
                &&& l.users() == Map::<Address, UserState>::empty()
                &&& l.posts().dom() == set![ctx.genesis_post_account]
                &&& is_genesis_post(l.posts()[ctx.genesis_post_account])
            },
            Err(e) => ctx.blog_account == ctx.genesis_post_account && e == BlogError::DuplicateAddress,
        },
{
    if ctx.blog_account.same_as(&ctx.genesis_post_account) {
        return Err(BlogError::DuplicateAddress);
    }
    let genesis_post = PostState {
        title: String::new(),
        content: String::new(),
        user: Address::zero(),
        pre_post_key: None,
        authority: Address::zero(),
    };
    let ghost c = seq![ctx.genesis_post_account];
    let mut posts: Table<PostState> = Table::new();
    posts.insert_new(ctx.genesis_post_account, genesis_post);
    let l = Ledger {
        blog_key: ctx.blog_account,
        blog: BlogState { current_post_key: ctx.genesis_post_account, authority: ctx.authority },
        genesis: ctx.genesis_post_account,
        users: Table::new(),
        posts,
        chain: Ghost(c),
    };
    proof {
        assert(c.no_duplicates());
        assert forall|a: Address| #[trigger] l.posts@.contains_key(a) <==> c.contains(a) by {
            if a == ctx.genesis_post_account {
                assert(c[0] == a);
            }
        }
        assert(l.posts@.dom() =~= set![ctx.genesis_post_account]);
    }
    Ok(l)
}

/// Registers a user at `user_account`, owned by the signer.
pub fn signup_user(ledger: &mut Ledger, ctx: SignupUser, name: String, avatar: String) -> (r: Result<(), BlogError>)
    requires
        old(ledger).wf(),
    ensures
        final(ledger).wf(),
        identities_kept(*old(ledger), *final(ledger)),
        match r {
            Ok(()) => {
                &&& signup_user_error(*old(ledger), ctx, name@, avatar@).is_none()
                &&& final(ledger).users() == old(ledger).users().insert(
                    ctx.user_account,
                    (UserState { name, avatar, authority: ctx.authority }),
                )
                &&& final(ledger).posts() == old(ledger).posts()
                &&& final(ledger).head() == old(ledger).head()
                &&& final(ledger).blog_kept(*old(ledger))
            },
            Err(e) => signup_user_error(*old(ledger), ctx, name@, avatar@) == Some(e) && *final(ledger) == *old(ledger),
        },
{
    if ledger.is_occupied(&ctx.user_account) {
        return Err(BlogError::DuplicateAddress);
    }
    if !fits(&name, MAX_NAME_LEN) || !fits(&avatar, MAX_AVATAR_LEN) {
        return Err(BlogError::TooLong);
    }
    ledger.users.insert_new(ctx.user_account, UserState { name, avatar, authority: ctx.authority });
    Ok(())
}

/// Replaces the profile of the user at `user_account`; only its owner may.
pub fn update_user(ledger: &mut Ledger, ctx: UpdateUser, name: String, avatar: String) -> (r: Result<(), BlogError>)
    requires
        old(ledger).wf(),
    ensures
        final(ledger).wf(),
        identities_kept(*old(ledger), *final(ledger)),
        match r {
            Ok(()) => {
                &&& update_user_error(*old(ledger), ctx, name@, avatar@).is_none()
                &&& final(ledger).users() == old(ledger).users().insert(
                    ctx.user_account,
                    (UserState { name, avatar, authority: old(ledger).users()[ctx.user_account].authority }),
                )
                &&& final(ledger).posts() == old(ledger).posts()
                &&& final(ledger).head() == old(ledger).head()
                &&& final(ledger).blog_kept(*old(ledger))
            },
            Err(e) => update_user_error(*old(ledger), ctx, name@, avatar@) == Some(e) && *final(ledger) == *old(ledger),
        },
{
    let authority = match ledger.users.get(&ctx.user_account) {
        None => return Err(BlogError::NotFound),
        Some(u) => u.authority,
    };
    if !authority.same_as(&ctx.authority) {
        return Err(BlogError::Unauthorized);
    }
    if !fits(&name, MAX_NAME_LEN) || !fits(&avatar, MAX_AVATAR_LEN) {
        return Err(BlogError::TooLong);
    }
    ledger.users.replace(&ctx.user_account, UserState { name, avatar, authority });
    Ok(())
}

/// Writes a new post at `post_account` as the user at `user_account`, whose
/// owner must sign. The new post points at the old head and becomes the head.
pub fn create_post(ledger: &mut Ledger, ctx: CreatePost, title: String, content: String) -> (r: Result<PostEvent, BlogError>)
    requires
        old(ledger).wf(),
    ensures
        final(ledger).wf(),
        identities_kept(*old(ledger), *final(ledger)),
        match r {
            Ok(ev) => {
                &&& create_post_error(*old(ledger), ctx, title@, content@).is_none()
                &&& final(ledger).head() == ctx.post_account
                &&& final(ledger).posts() == old(ledger).posts().insert(
                    ctx.post_account,
                    (PostState {
                        title,
                        content,
                        user: ctx.user_account,
                        pre_post_key: Some(old(ledger).head()),
                        authority: ctx.authority,
                    }),
                )
                &&& final(ledger).users() == old(ledger).users()
                &&& final(ledger).blog_kept(*old(ledger))
                &&& ev.label@ == create_label()
                &&& ev.post_id == ctx.post_account
                &&& ev.next_post_id.is_none()
            },
            Err(e) => create_post_error(*old(ledger), ctx, title@, content@) == Some(e) && *final(ledger) == *old(ledger),
        },
{
    if !ctx.blog_account.same_as(&ledger.blog_key) {
        return Err(BlogError::NotFound);
    }
    let owner = match ledger.users.get(&ctx.user_account) {
        None => return Err(BlogError::NotFound),
        Some(u) => u.authority,
    };
    if !owner.same_as(&ctx.authority) {
        return Err(BlogError::Unauthorized);
    }
    if ledger.is_occupied(&ctx.post_account) {
        return Err(BlogError::DuplicateAddress);
    }
    if !fits(&title, MAX_TITLE_LEN) || !fits(&content, MAX_CONTENT_LEN) {
        return Err(BlogError::TooLong);
    }
    let post = PostState {
        title,
        content,
        user: ctx.user_account,
        pre_post_key: Some(ledger.blog.current_post_key),
        authority: ctx.authority,
    };
    proof {
        lemma_chain_push(ledger.posts@, ledger.chain@, ctx.post_account, post);
    }
    ledger.posts.insert_new(ctx.post_account, post);
    ledger.blog.current_post_key = ctx.post_account;
    let ghost c = seq![ctx.post_account] + ledger.chain@;
    ledger.chain = Ghost(c);
    Ok(PostEvent::created(ctx.post_account))
}

/// `posts` with the title and content of the post at `a` replaced.
pub open spec fn text_replaced(posts: Map<Address, PostState>, a: Address, title: String, content: String) -> Map<Address, PostState> {
    posts.insert(
        a,
        PostState {
            title,
            content,
            user: posts[a].user,
            pre_post_key: posts[a].pre_post_key,
            authority: posts[a].authority,
        },
    )
}

/// Replacing a post's text a second time with the same title and content
/// changes nothing more.
pub proof fn lemma_text_replaced_twice(posts: Map<Address, PostState>, a: Address, title: String, content: String)
    requires
        posts.contains_key(a),
    ensures
        text_replaced(text_replaced(posts, a, title, content), a, title, content) == text_replaced(posts, a, title, content),
{
    assert(text_replaced(text_replaced(posts, a, title, content), a, title, content) =~= text_replaced(posts, a, title, content));
}

/// From the head, following each post's older neighbour reaches the genesis
/// post in exactly as many steps as there are posts besides it. Every step
/// lands on a stored post, no post is passed twice, and the genesis post
/// points nowhere, so the walk ends there.
pub proof fn lemma_chain_connected(l: Ledger)
    requires
        l.wf(),
    ensures
        l.posts().dom().finite(),
        l.posts().dom().len() >= 1,
        follow(l.posts(), l.head(), (l.posts().dom().len() - 1) as nat) == Some(l.genesis()),
        l.posts().contains_key(l.genesis()),
        l.posts()[l.genesis()].pre_post_key.is_none(),
        forall|k: nat| #![trigger follow(l.posts(), l.head(), k)]
            k < l.posts().dom().len() ==> {
                &&& follow(l.posts(), l.head(), k).is_some()
                &&& l.posts().contains_key(follow(l.posts(), l.head(), k).unwrap())
            },
        forall|j: nat, k: nat|
            j < k < l.posts().dom().len() ==> #[trigger] follow(l.posts(), l.head(), j) != #[trigger] follow(
                l.posts(),
                l.head(),
                k,
            ),
{
    let c = l.chain@;
    lemma_chain_counts_posts(l.posts@, c);
    assert forall|k: nat| #![trigger follow(l.posts(), l.head(), k)]
        k < l.posts().dom().len() implies {
            &&& follow(l.posts(), l.head(), k) == Some(c[k as int])
            &&& l.posts().contains_key(c[k as int])
        } by {
        lemma_follow_walks_chain(l.posts@, c, k);
        assert(c.contains(c[k as int]));
    }
    lemma_follow_walks_chain(l.posts@, c, (c.len() - 1) as nat);
    assert(c.contains(c.last()));
}

/// Replaces the title and content of the post at `post_account`; only its
/// author may. Nothing else of the post, and nothing of the chain, changes.
pub fn update_post(ledger: &mut Ledger, ctx: UpdatePost, title: String, content: String) -> (r: Result<PostEvent, BlogError>)
    requires
        old(ledger).wf(),
    ensures
        final(ledger).wf(),
        identities_kept(*old(ledger), *final(ledger)),
        chain_shape_kept(*old(ledger), *final(ledger)),
        match r {
            Ok(ev) => {
                &&& update_post_error(*old(ledger), ctx, title@, content@).is_none()
                &&& final(ledger).posts() == text_replaced(old(ledger).posts(), ctx.post_account, title, content)
                &&& final(ledger).users() == old(ledger).users()
                &&& final(ledger).blog_kept(*old(ledger))
                &&& ev.label@ == update_label()
                &&& ev.post_id == ctx.post_account
                &&& ev.next_post_id.is_none()
            },
            Err(e) => update_post_error(*old(ledger), ctx, title@, content@) == Some(e) && *final(ledger) == *old(ledger),
        },
{
    let (user, pre_post_key, authority) = match ledger.posts.get(&ctx.post_account) {
        None => return Err(BlogError::NotFound),
        Some(p) => (p.user, p.pre_post_key, p.authority),
    };
    if !authority.same_as(&ctx.authority) {
        return Err(BlogError::Unauthorized);
    }
    if !fits(&title, MAX_TITLE_LEN) || !fits(&content, MAX_CONTENT_LEN) {
        return Err(BlogError::TooLong);
    }
    let post = PostState { title, content, user, pre_post_key, authority };
    let ghost before = ledger.posts@;
    ledger.posts.replace(&ctx.post_account, post);
    proof {
        assert(ledger.posts@.dom() =~= before.dom());
        lemma_chain_same_links(before, ledger.posts@, ledger.chain@);
    }
    Ok(PostEvent::updated(ctx.post_account))
}

/// Removes the post at `post_account` from inside the chain; only its author
/// may. `next_post_account` must be the newer post that points at it; that
/// post is relinked to the removed post's older neighbour.
pub fn delete_post(ledger: &mut Ledger, ctx: DeletePost) -> (r: Result<PostEvent, BlogError>)
    requires
        old(ledger).wf(),
    ensures
        final(ledger).wf(),
        identities_kept(*old(ledger), *final(ledger)),
        match r {
            Ok(ev) => {
                &&& delete_post_error(*old(ledger), ctx).is_none()
                &&& final(ledger).posts() == old(ledger).posts().remove(ctx.post_account).insert(
                    ctx.next_post_account,
                    with_prev(
                        old(ledger).posts()[ctx.next_post_account],
                        old(ledger).posts()[ctx.post_account].pre_post_key,
                    ),
                )
                &&& final(ledger).users() == old(ledger).users()
                &&& final(ledger).head() == old(ledger).head()
                &&& final(ledger).blog_kept(*old(ledger))
                &&& ev.label@ == delete_label()
                &&& ev.post_id == ctx.post_account
                &&& ev.next_post_id == Some(ctx.next_post_account)
            },
            Err(e) => delete_post_error(*old(ledger), ctx) == Some(e) && *final(ledger) == *old(ledger),
        },
{
    let (pre_post_key, authority) = match ledger.posts.get(&ctx.post_account) {
        None => return Err(BlogError::NotFound),
        Some(p) => (p.pre_post_key, p.authority),
    };
    if !authority.same_as(&ctx.authority) {
        return Err(BlogError::Unauthorized);
    }
    let next = match ledger.posts.get(&ctx.next_post_account) {
        None => return Err(BlogError::NotFound),
        Some(n) => n,
    };
    let linked = match next.pre_post_key {
        Some(k) => k.same_as(&ctx.post_account),
        None => false,
    };
    if !linked {
        return Err(BlogError::IntegrityViolation);
    }
    if pre_post_key.is_none() {
        return Err(BlogError::GenesisPost);
    }
    let relinked = PostState {
        title: next.title.clone(),
        content: next.content.clone(),
        user: next.user,
        pre_post_key,
        authority: next.authority,
    };
    let ghost c = ledger.chain@;
    let ghost i = choose|i: int| 0 <= i < c.len() && c[i] == ctx.post_account;
    proof {
        assert(c.contains(ctx.post_account));
        lemma_chain_splice(ledger.posts@, c, ctx.post_account, ctx.next_post_account, i);
    }
    ledger.posts.remove(&ctx.post_account);
    ledger.posts.replace(&ctx.next_post_account, relinked);
    let ghost n = c.remove(i);
    ledger.chain = Ghost(n);
    Ok(PostEvent::deleted(ctx.post_account, Some(ctx.next_post_account)))
}

/// Removes the newest post, at `post_account`; only its author may. The blog's
/// head moves to the removed post's older neighbour. The post must be the
/// current head, and the genesis post cannot be removed.
pub fn delete_latest_post(ledger: &mut Ledger, ctx: DeleteLatestPost) -> (r: Result<PostEvent, BlogError>)
    requires
        old(ledger).wf(),
    ensures
        final(ledger).wf(),
        identities_kept(*old(ledger), *final(ledger)),
        match r {
            Ok(ev) => {
                &&& delete_latest_post_error(*old(ledger), ctx).is_none()
                &&& Some(final(ledger).head()) == old(ledger).posts()[ctx.post_account].pre_post_key
                &&& final(ledger).posts() == old(ledger).posts().remove(ctx.post_account)
                &&& final(ledger).users() == old(ledger).users()
                &&& final(ledger).blog_kept(*old(ledger))
                &&& ev.label@ == delete_label()
                &&& ev.post_id == ctx.post_account
                &&& ev.next_post_id.is_none()
            },
            Err(e) => delete_latest_post_error(*old(ledger), ctx) == Some(e) && *final(ledger)
                == *old(ledger),
        },
{
    let (pre_post_key, authority) = match ledger.posts.get(&ctx.post_account) {
        None => return Err(BlogError::NotFound),
        Some(p) => (p.pre_post_key, p.authority),
    };
    if !authority.same_as(&ctx.authority) {
        return Err(BlogError::Unauthorized);
    }
    if !ctx.blog_account.same_as(&ledger.blog_key) {
        return Err(BlogError::NotFound);
    }
    if !ctx.post_account.same_as(&ledger.blog.current_post_key) {
        return Err(BlogError::NotLatest);
    }
    let older = match pre_post_key {
        None => return Err(BlogError::GenesisPost),
        Some(k) => k,
    };
    let ghost c = ledger.chain@;
    proof {
        if c.len() == 1 {
            assert(c.last() == c[0]);
        }
        lemma_chain_drop_front(ledger.posts@, c);
    }
    ledger.posts.remove(&ctx.post_account);
    ledger.blog.current_post_key = older;
    let ghost n = c.drop_first();
    ledger.chain = Ghost(n);
    Ok(PostEvent::deleted(ctx.post_account, None))
}

} // verus!
