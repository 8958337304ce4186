//! Global identifiers of local entities. Every local person, community, post
//! and comment has one address under the instance's public origin; the
//! address is a function of the origin and the local key alone, and no two
//! entities share one.

use crate::ids::{
    ActorLocalRef, CommentLocalID, CommunityLocalID, PostLocalID, ThingLocalRef, UserLocalID,
};
use crate::text::{
    chars_eq, chars_of, format_i64, has_at, int_decimal, lemma_decimal_injective,
    lemma_decimal_round_trip, matches_at, parse_i64, push_int_decimal, push_str, slice_of,
};
use vstd::prelude::*;

verus! {

/// The address of the person with key `id` under the origin `base`.
pub open spec fn person_apub_id(base: Seq<char>, id: int) -> Seq<char> {
    base + "/users/"@ + int_decimal(id)
}

/// The address of the community with key `id` under the origin `base`.
pub open spec fn community_apub_id(base: Seq<char>, id: int) -> Seq<char> {
    base + "/communities/"@ + int_decimal(id)
}

/// The address of the post with key `id` under the origin `base`.
pub open spec fn post_apub_id(base: Seq<char>, id: int) -> Seq<char> {
    base + "/posts/"@ + int_decimal(id)
}

/// The address of the comment with key `id` under the origin `base`.
pub open spec fn comment_apub_id(base: Seq<char>, id: int) -> Seq<char> {
    base + "/comments/"@ + int_decimal(id)
}

/// The address of a local actor.
pub open spec fn actor_apub_id(base: Seq<char>, actor: ActorLocalRef) -> Seq<char> {
    match actor {
        ActorLocalRef::Person(id) => person_apub_id(base, id.0 as int),
        ActorLocalRef::Community(id) => community_apub_id(base, id.0 as int),
    }
}

/// The address of a local post or comment.
pub open spec fn thing_apub_id(base: Seq<char>, thing: ThingLocalRef) -> Seq<char> {
    match thing {
        ThingLocalRef::Post(id) => post_apub_id(base, id.0 as int),
        ThingLocalRef::Comment(id) => comment_apub_id(base, id.0 as int),
    }
}

/// The address of a community's inbox.
pub open spec fn community_inbox_url(base: Seq<char>, id: int) -> Seq<char> {
    community_apub_id(base, id) + "/inbox"@
}

/// The address of a community's collection of followers.
pub open spec fn community_followers_url(base: Seq<char>, id: int) -> Seq<char> {
    community_apub_id(base, id) + "/followers"@
}

/// The address under which a community vouches for one follower.
pub open spec fn community_follower_url(base: Seq<char>, community: int, follower: int) -> Seq<
    char,
> {
    community_followers_url(base, community) + "/"@ + int_decimal(follower)
}

/// The address of the announcement a community makes of one of its posts.
pub open spec fn community_post_announce_url(base: Seq<char>, community: int, post: int) -> Seq<
    char,
> {
    community_apub_id(base, community) + "/posts/"@ + int_decimal(post) + "/announce"@
}

/// The address of the announcement a community makes of a comment under one
/// of its posts.
pub open spec fn community_comment_announce_url(
    base: Seq<char>,
    community: int,
    comment: int,
) -> Seq<char> {
    community_apub_id(base, community) + "/comments/"@ + int_decimal(comment) + "/announce"@
}

/// The identifier of an actor's public key.
pub open spec fn main_key_id(actor: Seq<char>) -> Seq<char> {
    actor + "#main-key"@
}

/// Builds `base`, then `middle`, then the numeral of `id`.
fn numbered_url(base: &str, middle: &str, id: i64) -> (s: String)
    ensures
        s@ == base@ + middle@ + int_decimal(id as int),
{
    let mut s = String::new();
    push_str(&mut s, base);
    push_str(&mut s, middle);
    push_int_decimal(&mut s, id);
    s
}

/// The address of a local person.
pub fn get_local_person_apub_id(person: UserLocalID, host_url_apub: &str) -> (s: String)
    ensures
        s@ == person_apub_id(host_url_apub@, person.0 as int),
{
    numbered_url(host_url_apub, "/users/", person.0)
}

/// The address of a local community.
pub fn get_local_community_apub_id(community: CommunityLocalID, host_url_apub: &str) -> (s:
    String)
    ensures
        s@ == community_apub_id(host_url_apub@, community.0 as int),
{
    numbered_url(host_url_apub, "/communities/", community.0)
}

/// The address of a local post.
pub fn get_local_post_apub_id(post: PostLocalID, host_url_apub: &str) -> (s: String)
    ensures
        s@ == post_apub_id(host_url_apub@, post.0 as int),
{
    numbered_url(host_url_apub, "/posts/", post.0)
}

/// The address of a local comment.
pub fn get_local_comment_apub_id(comment: CommentLocalID, host_url_apub: &str) -> (s: String)
    ensures
        s@ == comment_apub_id(host_url_apub@, comment.0 as int),
{
    numbered_url(host_url_apub, "/comments/", comment.0)
}

/// The address of a local actor.
pub fn get_local_actor_apub_id(actor: ActorLocalRef, host_url_apub: &str) -> (s: String)
    ensures
        s@ == actor_apub_id(host_url_apub@, actor),
{
    match actor {
        ActorLocalRef::Person(id) => get_local_person_apub_id(id, host_url_apub),
        ActorLocalRef::Community(id) => get_local_community_apub_id(id, host_url_apub),
    }
}

/// The address of a local post or comment.
pub fn get_local_thing_apub_id(thing: ThingLocalRef, host_url_apub: &str) -> (s: String)
    ensures
        s@ == thing_apub_id(host_url_apub@, thing),
{
    match thing {
        ThingLocalRef::Post(id) => get_local_post_apub_id(id, host_url_apub),
        ThingLocalRef::Comment(id) => get_local_comment_apub_id(id, host_url_apub),
    }
}

/// The address of a local community's inbox.
pub fn get_local_community_inbox(community: CommunityLocalID, host_url_apub: &str) -> (s: String)
    ensures
        s@ == community_inbox_url(host_url_apub@, community.0 as int),
{
    let mut s = get_local_community_apub_id(community, host_url_apub);
    push_str(&mut s, "/inbox");
    s
}

/// The address of a local community's collection of followers.
pub fn get_local_community_followers(community: CommunityLocalID, host_url_apub: &str) -> (s:
    String)
    ensures
        s@ == community_followers_url(host_url_apub@, community.0 as int),
{
    let mut s = get_local_community_apub_id(community, host_url_apub);
    push_str(&mut s, "/followers");
    s
}

/// The address under which a local community vouches for one follower.
pub fn get_local_community_follower(
    community: CommunityLocalID,
    follower: UserLocalID,
    host_url_apub: &str,
) -> (s: String)
    ensures
        s@ == community_follower_url(host_url_apub@, community.0 as int, follower.0 as int),
{
    let mut s = get_local_community_followers(community, host_url_apub);
    push_str(&mut s, "/");
    push_int_decimal(&mut s, follower.0);
    s
}

/// The address of the announcement a local community makes of a post.
pub fn get_local_community_post_announce(
    community: CommunityLocalID,
    post: PostLocalID,
    host_url_apub: &str,
) -> (s: String)
    ensures
        s@ == community_post_announce_url(host_url_apub@, community.0 as int, post.0 as int),
{
    let mut s = get_local_community_apub_id(community, host_url_apub);
    push_str(&mut s, "/posts/");
    push_int_decimal(&mut s, post.0);
    push_str(&mut s, "/announce");
    s
}

/// The address of the announcement a local community makes of a comment.
pub fn get_local_community_comment_announce(
    community: CommunityLocalID,
    comment: CommentLocalID,
    host_url_apub: &str,
) -> (s: String)
    ensures
        s@ == community_comment_announce_url(
            host_url_apub@,
            community.0 as int,
            comment.0 as int,
        ),
{
    let mut s = get_local_community_apub_id(community, host_url_apub);
    push_str(&mut s, "/comments/");
    push_int_decimal(&mut s, comment.0);
    push_str(&mut s, "/announce");
    s
}

/// The identifier of the public key of the actor at `actor_ap_id`.
pub fn get_main_key_id(actor_ap_id: &str) -> (s: String)
    ensures
        s@ == main_key_id(actor_ap_id@),
{
    let mut s = String::new();
    push_str(&mut s, actor_ap_id);
    push_str(&mut s, "#main-key");
    s
}

/// Reads `s`, from position `at` on, as `prefix` followed by a numeral. Only
/// the numeral that `int_decimal` writes is accepted: no plus sign and no
/// leading zeros.
fn parse_numbered(s: &[char], at: usize, prefix: &[char]) -> (r: Option<i64>)
    requires
        at <= s.len(),
    ensures
        r matches Some(v) ==> s@.skip(at as int) == prefix@ + int_decimal(v as int),
        r is None ==> forall|v: i64|
            s@.skip(at as int) != prefix@ + #[trigger] int_decimal(v as int),
{
    let ghost tail = s@.skip(at as int);
    if !matches_at(s, at, prefix) {
        proof {
            assert forall|v: i64| tail != prefix@ + #[trigger] int_decimal(v as int) by {
                if tail == prefix@ + int_decimal(v as int) {
                    assert(tail.len() == prefix@.len() + int_decimal(v as int).len());
                    assert(tail.len() == s@.len() - at);
                    assert(tail.subrange(0, prefix@.len() as int) =~= prefix@);
                    assert(s@.subrange(at as int, at + prefix@.len()) =~= tail.subrange(
                        0,
                        prefix@.len() as int,
                    ));
                }
            }
        }
        return None;
    }
    let from = at + prefix.len();
    let rest = slice_of(s, from, s.len());
    proof {
        assert(rest@ == tail.skip(prefix@.len() as int));
        assert(tail == prefix@ + rest@);
        assert forall|v: i64| tail == prefix@ + #[trigger] int_decimal(v as int) implies rest@
            == int_decimal(v as int) by {
            lemma_cancel_front(prefix@, rest@, int_decimal(v as int));
        }
    }
    match parse_i64(rest.as_slice()) {
        Some(v) => {
            let again = chars_of(format_i64(v).as_str());
            if chars_eq(again.as_slice(), rest.as_slice()) {
                Some(v)
            } else {
                proof {
                    assert forall|w: i64| rest@ != #[trigger] int_decimal(w as int) by {
                        if rest@ == int_decimal(w as int) {
                            lemma_decimal_round_trip(w as int);
                        }
                    }
                }
                None
            }
        },
        None => {
            proof {
                assert forall|w: i64| rest@ != #[trigger] int_decimal(w as int) by {
                    if rest@ == int_decimal(w as int) {
                        lemma_decimal_round_trip(w as int);
                    }
                }
            }
            None
        },
    }
}

/// Two sequences with a common front agree on what follows it.
proof fn lemma_cancel_front(a: Seq<char>, x: Seq<char>, y: Seq<char>)
    requires
        a + x == a + y,
    ensures
        x == y,
{
    assert((a + x).skip(a.len() as int) == x);
    assert((a + y).skip(a.len() as int) == y);
}

/// What follows the origin in the address of a local actor.
pub open spec fn actor_path(actor: ActorLocalRef) -> Seq<char> {
    match actor {
        ActorLocalRef::Person(id) => "/users/"@ + int_decimal(id.0 as int),
        ActorLocalRef::Community(id) => "/communities/"@ + int_decimal(id.0 as int),
    }
}

/// What follows the origin in the address of a local post or comment.
pub open spec fn thing_path(thing: ThingLocalRef) -> Seq<char> {
    match thing {
        ThingLocalRef::Post(id) => "/posts/"@ + int_decimal(id.0 as int),
        ThingLocalRef::Comment(id) => "/comments/"@ + int_decimal(id.0 as int),
    }
}

proof fn lemma_actor_path(base: Seq<char>, actor: ActorLocalRef)
    ensures
        actor_apub_id(base, actor) == base + actor_path(actor),
        actor_path(actor).len() > 5,
        actor_path(actor)[0] == '/',
        actor is Person ==> actor_path(actor)[1] == 'u',
        actor is Community ==> actor_path(actor)[1] == 'c' && actor_path(actor)[5] == 'u',
{
    reveal_strlit("/users/");
    reveal_strlit("/communities/");
    match actor {
        ActorLocalRef::Person(id) => {
            assert(base + "/users/"@ + int_decimal(id.0 as int) == base + ("/users/"@
                + int_decimal(id.0 as int)));
        },
        ActorLocalRef::Community(id) => {
            assert(base + "/communities/"@ + int_decimal(id.0 as int) == base + (
            "/communities/"@ + int_decimal(id.0 as int)));
        },
    }
}

proof fn lemma_thing_path(base: Seq<char>, thing: ThingLocalRef)
    ensures
        thing_apub_id(base, thing) == base + thing_path(thing),
        thing_path(thing).len() > 5,
        thing_path(thing)[0] == '/',
        thing is Post ==> thing_path(thing)[1] == 'p',
        thing is Comment ==> thing_path(thing)[1] == 'c' && thing_path(thing)[5] == 'e',
{
    reveal_strlit("/posts/");
    reveal_strlit("/comments/");
    match thing {
        ThingLocalRef::Post(id) => {
            assert(base + "/posts/"@ + int_decimal(id.0 as int) == base + ("/posts/"@
                + int_decimal(id.0 as int)));
        },
        ThingLocalRef::Comment(id) => {
            assert(base + "/comments/"@ + int_decimal(id.0 as int) == base + ("/comments/"@
                + int_decimal(id.0 as int)));
        },
    }
}

/// Under one origin, two local actors with the same address are the same
/// actor.
pub proof fn lemma_actor_apub_id_injective(base: Seq<char>, a: ActorLocalRef, b: ActorLocalRef)
    requires
        actor_apub_id(base, a) == actor_apub_id(base, b),
    ensures
        a == b,
{
    lemma_actor_path(base, a);
    lemma_actor_path(base, b);
    lemma_cancel_front(base, actor_path(a), actor_path(b));
    match (a, b) {
        (ActorLocalRef::Person(x), ActorLocalRef::Person(y)) => {
            lemma_cancel_front("/users/"@, int_decimal(x.0 as int), int_decimal(y.0 as int));
            lemma_decimal_injective(x.0 as int, y.0 as int);
        },
        (ActorLocalRef::Community(x), ActorLocalRef::Community(y)) => {
            lemma_cancel_front(
                "/communities/"@,
                int_decimal(x.0 as int),
                int_decimal(y.0 as int),
            );
            lemma_decimal_injective(x.0 as int, y.0 as int);
        },
        _ => {},
    }
}

/// Under one origin, two local posts or comments with the same address are
/// the same.
pub proof fn lemma_thing_apub_id_injective(base: Seq<char>, a: ThingLocalRef, b: ThingLocalRef)
    requires
        thing_apub_id(base, a) == thing_apub_id(base, b),
    ensures
        a == b,
{
    lemma_thing_path(base, a);
    lemma_thing_path(base, b);
    lemma_cancel_front(base, thing_path(a), thing_path(b));
    match (a, b) {
        (ThingLocalRef::Post(x), ThingLocalRef::Post(y)) => {
            lemma_cancel_front("/posts/"@, int_decimal(x.0 as int), int_decimal(y.0 as int));
            lemma_decimal_injective(x.0 as int, y.0 as int);
        },
        (ThingLocalRef::Comment(x), ThingLocalRef::Comment(y)) => {
            lemma_cancel_front("/comments/"@, int_decimal(x.0 as int), int_decimal(y.0 as int));
            lemma_decimal_injective(x.0 as int, y.0 as int);
        },
        _ => {},
    }
}

/// Under one origin, no actor shares its address with a post or a comment.
pub proof fn lemma_actor_and_thing_apart(base: Seq<char>, actor: ActorLocalRef, thing: ThingLocalRef)
    ensures
        actor_apub_id(base, actor) != thing_apub_id(base, thing),
{
    lemma_actor_path(base, actor);
    lemma_thing_path(base, thing);
    if actor_apub_id(base, actor) == thing_apub_id(base, thing) {
        lemma_cancel_front(base, actor_path(actor), thing_path(thing));
    }
}

/// The local actor whose address is `url`, if there is one.
pub fn parse_local_actor(url: &str, host_url_apub: &str) -> (r: Option<ActorLocalRef>)
    ensures
        r matches Some(a) ==> url@ == actor_apub_id(host_url_apub@, a),
        r is None ==> forall|a: ActorLocalRef| url@ != #[trigger] actor_apub_id(host_url_apub@, a),
{
    let u = chars_of(url);
    let b = chars_of(host_url_apub);
    let ghost base = host_url_apub@;
    proof {
        assert forall|a: ActorLocalRef| url@ == #[trigger] actor_apub_id(base, a) implies has_at(
            u@,
            0,
            base,
        ) && u@.skip(base.len() as int) == actor_path(a) by {
            lemma_actor_path(base, a);
            assert((base + actor_path(a)).subrange(0, base.len() as int) == base);
            assert((base + actor_path(a)).skip(base.len() as int) == actor_path(a));
        }
    }
    if !matches_at(u.as_slice(), 0, b.as_slice()) {
        return None;
    }
    let at = b.len();
    assert(u@ == base + u@.skip(at as int));
    let users = chars_of("/users/");
    let communities = chars_of("/communities/");
    match parse_numbered(u.as_slice(), at, users.as_slice()) {
        Some(v) => {
            proof {
                lemma_actor_path(base, ActorLocalRef::Person(UserLocalID(v)));
            }
            Some(ActorLocalRef::Person(UserLocalID(v)))
        },
        None => match parse_numbered(u.as_slice(), at, communities.as_slice()) {
            Some(v) => {
                proof {
                    lemma_actor_path(base, ActorLocalRef::Community(CommunityLocalID(v)));
                }
                Some(ActorLocalRef::Community(CommunityLocalID(v)))
            },
            None => {
                proof {
                    assert forall|a: ActorLocalRef| url@ != #[trigger] actor_apub_id(
                        base,
                        a,
                    ) by {
                        match a {
                            ActorLocalRef::Person(id) => {
                                let d = int_decimal(id.0 as int);
                            },
                            ActorLocalRef::Community(id) => {
                                let d = int_decimal(id.0 as int);
                            },
                        }
                    }
                }
                None
            },
        },
    }
}

/// The local post or comment whose address is `url`, if there is one.
pub fn parse_local_thing(url: &str, host_url_apub: &str) -> (r: Option<ThingLocalRef>)
    ensures
        r matches Some(t) ==> url@ == thing_apub_id(host_url_apub@, t),
        r is None ==> forall|t: ThingLocalRef| url@ != #[trigger] thing_apub_id(host_url_apub@, t),
{
    let u = chars_of(url);
    let b = chars_of(host_url_apub);
    let ghost base = host_url_apub@;
    proof {
        assert forall|t: ThingLocalRef| url@ == #[trigger] thing_apub_id(base, t) implies has_at(
            u@,
            0,
            base,
        ) && u@.skip(base.len() as int) == thing_path(t) by {
            lemma_thing_path(base, t);
            assert((base + thing_path(t)).subrange(0, base.len() as int) == base);
            assert((base + thing_path(t)).skip(base.len() as int) == thing_path(t));
        }
    }
    if !matches_at(u.as_slice(), 0, b.as_slice()) {
        return None;
    }
    let at = b.len();
    assert(u@ == base + u@.skip(at as int));
    let posts = chars_of("/posts/");
    let comments = chars_of("/comments/");
    match parse_numbered(u.as_slice(), at, posts.as_slice()) {
        Some(v) => {
            proof {
                lemma_thing_path(base, ThingLocalRef::Post(PostLocalID(v)));
            }
            Some(ThingLocalRef::Post(PostLocalID(v)))
        },
        None => match parse_numbered(u.as_slice(), at, comments.as_slice()) {
            Some(v) => {
                proof {
                    lemma_thing_path(base, ThingLocalRef::Comment(CommentLocalID(v)));
                }
                Some(ThingLocalRef::Comment(CommentLocalID(v)))
            },
            None => {
                proof {
                    assert forall|t: ThingLocalRef| url@ != #[trigger] thing_apub_id(
                        base,
                        t,
                    ) by {
                        match t {
                            ThingLocalRef::Post(id) => {
                                let d = int_decimal(id.0 as int);
                            },
                            ThingLocalRef::Comment(id) => {
                                let d = int_decimal(id.0 as int);
                            },
                        }
                    }
                }
                None
            },
        },
    }
}

/// Addresses name one thing: under one origin, an address is the address of
/// at most one local actor and of at most one local post or comment, and
/// never of both an actor and a post or comment.
pub proof fn lemma_address_names_one(base: Seq<char>, url: Seq<char>)
    ensures
        forall|a: ActorLocalRef, b: ActorLocalRef|
            url == actor_apub_id(base, a) && url == actor_apub_id(base, b) ==> a == b,
        forall|s: ThingLocalRef, t: ThingLocalRef|
            url == thing_apub_id(base, s) && url == thing_apub_id(base, t) ==> s == t,
        forall|a: ActorLocalRef, t: ThingLocalRef|
            !(url == actor_apub_id(base, a) && url == thing_apub_id(base, t)),
{
    assert forall|a: ActorLocalRef, b: ActorLocalRef|
        url == actor_apub_id(base, a) && url == actor_apub_id(base, b) implies a == b by {
        lemma_actor_apub_id_injective(base, a, b);
    }
    assert forall|s: ThingLocalRef, t: ThingLocalRef|
        url == thing_apub_id(base, s) && url == thing_apub_id(base, t) implies s == t by {
        lemma_thing_apub_id_injective(base, s, t);
    }
    assert forall|a: ActorLocalRef, t: ThingLocalRef|
        !(url == actor_apub_id(base, a) && url == thing_apub_id(base, t)) by {
        lemma_actor_and_thing_apart(base, a, t);
    }
}

} // verus!
