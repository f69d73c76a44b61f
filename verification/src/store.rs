//! The account and review store.
//!
//! An in-memory table of users, keyed by username, and of reviews, keyed
//! by the pair of author and establishment. Usernames are unique, and an
//! author holds at most one review per establishment; every operation
//! preserves these invariants. Persistence of the tables is a
//! collaborator's concern, outside this core.

use vstd::prelude::*;
use crate::authz::{RoleModel, UserRole};

verus! {

/// An account: its username, its password hash, and its role.
#[derive(Debug, Clone, PartialEq, Eq)]
pub struct User {
    pub name: String,
    pub password: String,
    pub role: UserRole,
}

/// The mathematical image of an account.
pub struct UserModel {
    pub name: Seq<char>,
    pub password: Seq<char>,
    pub role: RoleModel,
}

impl View for User {
    type V = UserModel;

    open spec fn view(&self) -> UserModel {
        UserModel { name: self.name@, password: self.password@, role: self.role@ }
    }
}

/// A review of an establishment, with its author's name.
#[derive(Debug, Clone, PartialEq, Eq)]
pub struct Review {
    pub establishment: String,
    pub reviewer: String,
    pub comment: String,
    pub grade: u8,
}

/// The mathematical image of a review.
pub struct ReviewModel {
    pub establishment: Seq<char>,
    pub reviewer: Seq<char>,
    pub comment: Seq<char>,
    pub grade: u8,
}

impl View for Review {
    type V = ReviewModel;

    open spec fn view(&self) -> ReviewModel {
        ReviewModel {
            establishment: self.establishment@,
            reviewer: self.reviewer@,
            comment: self.comment@,
            grade: self.grade,
        }
    }
}

/// The images of a sequence of stored users.
pub open spec fn user_models(s: Seq<User>) -> Seq<UserModel> {
    s.map_values(|u: User| u@)
}

/// The images of a sequence of stored reviews.
pub open spec fn review_models(s: Seq<Review>) -> Seq<ReviewModel> {
    s.map_values(|v: Review| v@)
}

/// The reviews bearing this author's name.
pub open spec fn by_reviewer(reviewer: Seq<char>) -> spec_fn(ReviewModel) -> bool {
    |m: ReviewModel| m.reviewer == reviewer
}

/// The reviews of this establishment.
pub open spec fn of_establishment(establishment: Seq<char>) -> spec_fn(ReviewModel) -> bool {
    |m: ReviewModel| m.establishment == establishment
}

/// The reviews that do not bear this author/establishment key.
pub open spec fn not_review_key(reviewer: Seq<char>, establishment: Seq<char>) -> spec_fn(
    ReviewModel,
) -> bool {
    |m: ReviewModel| !(m.reviewer == reviewer && m.establishment == establishment)
}

/// Whether some stored user bears this name.
pub open spec fn spec_has_user(users: Seq<UserModel>, name: Seq<char>) -> bool {
    exists|i: int| 0 <= i < users.len() && (#[trigger] users[i]).name == name
}

/// Whether some stored review bears this author/establishment pair.
pub open spec fn spec_has_review(
    reviews: Seq<ReviewModel>,
    reviewer: Seq<char>,
    establishment: Seq<char>,
) -> bool {
    exists|i: int|
        0 <= i < reviews.len() && (#[trigger] reviews[i]).reviewer == reviewer
            && reviews[i].establishment == establishment
}

/// Pairwise distinctness of review keys.
pub open spec fn distinct_review_keys(reviews: Seq<ReviewModel>) -> bool {
    forall|i: int, j: int|
        0 <= i < j < reviews.len() ==> !((#[trigger] reviews[i]).reviewer == (
        #[trigger] reviews[j]).reviewer && reviews[i].establishment == reviews[j].establishment)
}

/// Every element of a filtered sequence appears in the sequence it was
/// filtered from.
proof fn lemma_filter_elements(s: Seq<ReviewModel>, pred: spec_fn(ReviewModel) -> bool)
    ensures
        forall|k: int| 0 <= k < s.filter(pred).len() ==> s.contains(#[trigger] s.filter(pred)[k]),
    decreases s.len(),
{
    reveal(Seq::filter);
    if s.len() > 0 {
        lemma_filter_elements(s.drop_last(), pred);
        let sub = s.drop_last().filter(pred);
        let out = s.filter(pred);
        assert forall|k: int| 0 <= k < out.len() implies s.contains(out[k]) by {
            if k < sub.len() {
                assert(s.drop_last().contains(sub[k]));
                let j = choose|j: int|
                    0 <= j < s.drop_last().len() && s.drop_last()[j] == sub[k];
                assert(s[j] == out[k]);
            } else {
                assert(out[k] == s.last());
                assert(s[s.len() - 1] == out[k]);
            }
        }
    }
}

/// Filtering a sequence with pairwise distinct review keys leaves the
/// keys pairwise distinct.
proof fn lemma_filter_distinct(s: Seq<ReviewModel>, pred: spec_fn(ReviewModel) -> bool)
    requires
        distinct_review_keys(s),
    ensures
        distinct_review_keys(s.filter(pred)),
    decreases s.len(),
{
    reveal(Seq::filter);
    if s.len() > 0 {
        assert(distinct_review_keys(s.drop_last()));
        lemma_filter_distinct(s.drop_last(), pred);
        let sub = s.drop_last().filter(pred);
        let out = s.filter(pred);
        if pred(s.last()) {
            lemma_filter_elements(s.drop_last(), pred);
            assert forall|i: int, j: int|
                0 <= i < j < out.len() implies !(out[i].reviewer == out[j].reviewer
                && out[i].establishment == out[j].establishment) by {
                if j == out.len() - 1 {
                    assert(s.drop_last().contains(sub[i]));
                    let p = choose|p: int|
                        0 <= p < s.drop_last().len() && s.drop_last()[p] == sub[i];
                    assert(s[p] == out[i]);
                    assert(out[j] == s[s.len() - 1]);
                }
            }
        }
    }
}

/// A failure to store a record.
#[derive(Debug, Clone, Copy, PartialEq, Eq, Structural)]
pub enum StoreError {
    /// The record's key is already taken.
    Duplicate,
}

/// The accounts the default content seeds.
pub open spec fn seeded_users() -> Seq<UserModel> {
    seq![
        (UserModel {
            name: "sire debeugg"@,
            password: "$argon2id$v=19$m=19456,t=2,p=1$7aap7ojd7U+62+pHXz7Maw$yz4Ron90Ith/YSLgvTfD84pt1Rc1cIQfrGiwMXNHzsQ"@,
            role: RoleModel::Reviewer,
        }),
        (UserModel {
            name: "conte devvisse"@,
            password: "$argon2id$v=19$m=19456,t=2,p=1$ry6BCviMXpn3CWjSikEKLg$Ns5f/wccOFu/RvxJHwV7egyyED37wV3D2vOjpXWAi4g"@,
            role: RoleModel::Owner("mcdonalds"@),
        }),
        (UserModel {
            name: "thestrongestone"@,
            password: "$argon2id$v=19$m=19456,t=2,p=1$+gaJq6Rpy4LxQusNfI8oNQ$GRVKCLnl15TVhxglZX33biPWsEImSAqlu/UmnPK2lKc"@,
            role: RoleModel::Admin,
        }),
    ]
}

/// The reviews the default content seeds.
pub open spec fn seeded_reviews() -> Seq<ReviewModel> {
    seq![
        (ReviewModel {
            establishment: "mcdonalds"@,
            reviewer: "sire debeugg"@,
            comment: "À fuire !"@,
            grade: 1,
        }),
        (ReviewModel {
            establishment: "bistrot des lutins"@,
            reviewer: "sire debeugg"@,
            comment: "Au top !"@,
            grade: 4,
        }),
        (ReviewModel {
            establishment: "cafétéria du coin"@,
            reviewer: "sire debeugg"@,
            comment: "Médiocre."@,
            grade: 2,
        }),
        (ReviewModel {
            establishment: "triple r"@,
            reviewer: "conte devvisse"@,
            comment: "Venez chez moi !"@,
            grade: 1,
        }),
    ]
}

/// The mathematical image of the store.
pub struct DatabaseModel {
    pub users: Seq<UserModel>,
    pub reviews: Seq<ReviewModel>,
}

/// The in-memory store of accounts and reviews.
pub struct Database {
    users: Vec<User>,
    reviews: Vec<Review>,
}

impl View for Database {
    type V = DatabaseModel;

    closed spec fn view(&self) -> DatabaseModel {
        DatabaseModel { users: user_models(self.users@), reviews: review_models(self.reviews@) }
    }
}

impl UserRole {
    /// A copy of this role with the same content.
    pub fn duplicate(&self) -> (r: UserRole)
        ensures
            r@ == self@,
    {
        match self {
            UserRole::Reviewer => UserRole::Reviewer,
            UserRole::Owner { owned_establishment } => UserRole::Owner {
                owned_establishment: owned_establishment.clone(),
            },
            UserRole::Admin => UserRole::Admin,
        }
    }
}

impl User {
    /// A new account from its parts.
    pub fn new(name: &str, password: &str, role: UserRole) -> (r: User)
        ensures
            r@.name == name@ && r@.password == password@ && r@.role == role@,
    {
        User { name: String::from_str(name), password: String::from_str(password), role }
    }

    /// A copy of this account with the same content.
    pub fn duplicate(&self) -> (r: User)
        ensures
            r@ == self@,
    {
        User {
            name: self.name.clone(),
            password: self.password.clone(),
            role: self.role.duplicate(),
        }
    }

    /// Stores this account, failing on a taken username.
    pub fn save(&self, db: &mut Database) -> (r: Result<(), StoreError>)
        requires
            old(db).wf(),
        ensures
            final(db).wf(),
            spec_has_user(old(db)@.users, self@.name) ==> r == Err::<(), _>(StoreError::Duplicate)
                && final(db)@ == old(db)@,
            !spec_has_user(old(db)@.users, self@.name) ==> r is Ok && final(db)@.users == old(db)@.users.push(self@) && final(db)@.reviews == old(db)@.reviews,
    {
        db.store_user(self.duplicate())
    }

    /// The stored account under a username, if any.
    pub fn get(db: &Database, username: &str) -> (r: Option<User>)
        requires
            db.wf(),
        ensures
            match r {
                Some(u) => db@.users.contains(u@) && u@.name == username@,
                None => !spec_has_user(db@.users, username@),
            },
    {
        db.get_user(username)
    }
}

impl Default for User {
    /// An empty account: blank name and password, the ordinary
    /// contributor role.
    fn default() -> (r: User)
        ensures
            r@.name.len() == 0 && r@.password.len() == 0 && r@.role == RoleModel::Reviewer,
    {
        User { name: String::new(), password: String::new(), role: UserRole::Reviewer }
    }
}

impl Review {
    /// A new review from its parts.
    pub fn new(establishment: &str, reviewer: &str, comment: &str, grade: u8) -> (r: Review)
        ensures
            r@.establishment == establishment@ && r@.reviewer == reviewer@ && r@.comment
                == comment@ && r@.grade == grade,
    {
        Review {
            establishment: String::from_str(establishment),
            reviewer: String::from_str(reviewer),
            comment: String::from_str(comment),
            grade,
        }
    }

    /// A copy of this review with the same content.
    pub fn duplicate(&self) -> (r: Review)
        ensures
            r@ == self@,
    {
        Review {
            establishment: self.establishment.clone(),
            reviewer: self.reviewer.clone(),
            comment: self.comment.clone(),
            grade: self.grade,
        }
    }

    /// Stores this review, failing when its author already reviewed the
    /// establishment.
    pub fn save(&self, db: &mut Database) -> (r: Result<(), StoreError>)
        requires
            old(db).wf(),
        ensures
            final(db).wf(),
            spec_has_review(old(db)@.reviews, self@.reviewer, self@.establishment) ==> r == Err::<
                (),
                _,
            >(StoreError::Duplicate) && final(db)@ == old(db)@,
            !spec_has_review(old(db)@.reviews, self@.reviewer, self@.establishment) ==> r is Ok
                && final(db)@.reviews == old(db)@.reviews.push(self@) && final(db)@.users == old(db)@.users,
    {
        db.store_review(self.duplicate())
    }

    /// Removes this review from the store.
    pub fn delete(&self, db: &mut Database)
        requires
            old(db).wf(),
        ensures
            final(db).wf(),
            final(db)@.reviews =~= old(db)@.reviews.filter(
                not_review_key(self@.reviewer, self@.establishment),
            ),
            final(db)@.users == old(db)@.users,
    {
        db.delete_review(self.reviewer.as_str(), self.establishment.as_str())
    }

    /// The review an author made of an establishment, if any.
    pub fn get(db: &Database, reviewer: &str, establishment: &str) -> (r: Option<Review>)
        requires
            db.wf(),
        ensures
            match r {
                Some(v) => db@.reviews.contains(v@) && v@.reviewer == reviewer@
                    && v@.establishment == establishment@,
                None => !spec_has_review(db@.reviews, reviewer@, establishment@),
            },
    {
        db.get_review(reviewer, establishment)
    }

    /// All reviews by one author, in store order.
    pub fn written_by(db: &Database, reviewer: &str) -> (r: Vec<Review>)
        ensures
            review_models(r@) =~= db@.reviews.filter(by_reviewer(reviewer@)),
    {
        db.get_reviews_by_reviewer(reviewer)
    }

    /// All reviews of an establishment, in store order.
    pub fn of(db: &Database, establishment: &str) -> (r: Vec<Review>)
        ensures
            review_models(r@) =~= db@.reviews.filter(of_establishment(establishment@)),
    {
        db.get_reviews_of_establishment(establishment)
    }
}

impl Database {
    /// Usernames are unique, and an author holds at most one review per
    /// establishment.
    pub open spec fn wf(&self) -> bool {
        (forall|i: int, j: int|
            0 <= i < j < self@.users.len() ==> (#[trigger] self@.users[i]).name != (
            #[trigger] self@.users[j]).name) && distinct_review_keys(self@.reviews)
    }

    /// An empty store.
    pub fn new() -> (r: Database)
        ensures
            r.wf(),
            r@.users.len() == 0 && r@.reviews.len() == 0,
    {
        Database { users: Vec::new(), reviews: Vec::new() }
    }

    /// Seeds an empty store with the default content: three accounts (an
    /// ordinary contributor, the owner of "mcdonalds", and an
    /// administrator, each with a stored password hash) and four reviews.
    /// The store must still be empty: seeding is a startup step, and on a
    /// store that already held one of the seeded keys the duplicate
    /// entries would be refused rather than stored.
    pub fn init(&mut self)
        requires
            old(self).wf(),
            old(self)@.users.len() == 0,
            old(self)@.reviews.len() == 0,
        ensures
            final(self).wf(),
            final(self)@.users =~= seeded_users(),
            final(self)@.reviews =~= seeded_reviews(),
    {
        proof {
            reveal_strlit("sire debeugg");
            reveal_strlit("conte devvisse");
            reveal_strlit("thestrongestone");
            reveal_strlit("mcdonalds");
            reveal_strlit("bistrot des lutins");
            reveal_strlit("cafétéria du coin");
            reveal_strlit("triple r");
            assert("sire debeugg"@.len() == 12);
            assert("conte devvisse"@.len() == 14);
            assert("thestrongestone"@.len() == 15);
            assert("mcdonalds"@.len() == 9);
            assert("bistrot des lutins"@.len() == 18);
            assert("cafétéria du coin"@.len() == 17);
            assert("triple r"@.len() == 8);
        }
        let u1 = User::new(
            "sire debeugg",
            "$argon2id$v=19$m=19456,t=2,p=1$7aap7ojd7U+62+pHXz7Maw$yz4Ron90Ith/YSLgvTfD84pt1Rc1cIQfrGiwMXNHzsQ",
            UserRole::Reviewer,
        );
        let u2 = User::new(
            "conte devvisse",
            "$argon2id$v=19$m=19456,t=2,p=1$ry6BCviMXpn3CWjSikEKLg$Ns5f/wccOFu/RvxJHwV7egyyED37wV3D2vOjpXWAi4g",
            UserRole::Owner { owned_establishment: String::from_str("mcdonalds") },
        );
        let u3 = User::new(
            "thestrongestone",
            "$argon2id$v=19$m=19456,t=2,p=1$+gaJq6Rpy4LxQusNfI8oNQ$GRVKCLnl15TVhxglZX33biPWsEImSAqlu/UmnPK2lKc",
            UserRole::Admin,
        );
        let _ = self.store_user(u1);
        let _ = self.store_user(u2);
        let _ = self.store_user(u3);
        let r1 = Review::new("mcdonalds", "sire debeugg", "À fuire !", 1);
        let r2 = Review::new("bistrot des lutins", "sire debeugg", "Au top !", 4);
        let r3 = Review::new("cafétéria du coin", "sire debeugg", "Médiocre.", 2);
        let r4 = Review::new("triple r", "conte devvisse", "Venez chez moi !", 1);
        let _ = self.store_review(r1);
        let _ = self.store_review(r2);
        let _ = self.store_review(r3);
        let _ = self.store_review(r4);
    }

    /// The stored account under a username, if any.
    pub fn get_user(&self, username: &str) -> (r: Option<User>)
        requires
            self.wf(),
        ensures
            match r {
                Some(u) => self@.users.contains(u@) && u@.name == username@,
                None => !spec_has_user(self@.users, username@),
            },
    {
        let key = String::from_str(username);
        let n = self.users.len();
        let mut i: usize = 0;
        while i < n
            invariant
                n == self.users@.len(),
                0 <= i <= n,
                key@ == username@,
                forall|j: int| 0 <= j < i ==> (#[trigger] self@.users[j]).name != username@,
            decreases n - i,
        {
            if self.users[i].name == key {
                let u = self.users[i].duplicate();
                assert(self@.users[i as int] == u@);
                return Some(u);
            }
            i = i + 1;
        }
        None
    }

    /// Stores an account, failing on a taken username; the store is
    /// unchanged on failure.
    pub fn store_user(&mut self, user: User) -> (r: Result<(), StoreError>)
        requires
            old(self).wf(),
        ensures
            final(self).wf(),
            spec_has_user(old(self)@.users, user@.name) ==> r == Err::<(), _>(
                StoreError::Duplicate,
            ) && final(self)@ == old(self)@,
            !spec_has_user(old(self)@.users, user@.name) ==> r is Ok && final(self)@.users == old(self)@.users.push(user@) && final(self)@.reviews == old(self)@.reviews,
    {
        match self.get_user(user.name.as_str()) {
            Some(_) => Err(StoreError::Duplicate),
            None => {
                let ghost before = self@.users;
                self.users.push(user);
                assert(self@.users =~= before.push(user@));
                assert forall|i: int, j: int|
                    0 <= i < j < self@.users.len() implies (#[trigger] self@.users[i]).name != (
                #[trigger] self@.users[j]).name by {
                    if j == self@.users.len() - 1 {
                        assert(before[i].name != user@.name);
                    }
                }
                Ok(())
            },
        }
    }

    /// The review an author made of an establishment, if any.
    pub fn get_review(&self, reviewer: &str, establishment: &str) -> (r: Option<Review>)
        requires
            self.wf(),
        ensures
            match r {
                Some(v) => self@.reviews.contains(v@) && v@.reviewer == reviewer@
                    && v@.establishment == establishment@,
                None => !spec_has_review(self@.reviews, reviewer@, establishment@),
            },
    {
        let rev_key = String::from_str(reviewer);
        let est_key = String::from_str(establishment);
        let n = self.reviews.len();
        let mut i: usize = 0;
        while i < n
            invariant
                n == self.reviews@.len(),
                0 <= i <= n,
                rev_key@ == reviewer@,
                est_key@ == establishment@,
                forall|j: int|
                    0 <= j < i ==> !((#[trigger] self@.reviews[j]).reviewer == reviewer@
                        && self@.reviews[j].establishment == establishment@),
            decreases n - i,
        {
            if self.reviews[i].reviewer == rev_key && self.reviews[i].establishment == est_key {
                let v = self.reviews[i].duplicate();
                assert(self@.reviews[i as int] == v@);
                return Some(v);
            }
            i = i + 1;
        }
        None
    }

    /// Stores a review, failing when its author already reviewed the
    /// establishment; the store is unchanged on failure.
    pub fn store_review(&mut self, review: Review) -> (r: Result<(), StoreError>)
        requires
            old(self).wf(),
        ensures
            final(self).wf(),
            spec_has_review(old(self)@.reviews, review@.reviewer, review@.establishment) ==> r
                == Err::<(), _>(StoreError::Duplicate) && final(self)@ == old(self)@,
            !spec_has_review(old(self)@.reviews, review@.reviewer, review@.establishment) ==> r
                is Ok && final(self)@.reviews == old(self)@.reviews.push(review@) && final(self)@.users == old(self)@.users,
    {
        match self.get_review(review.reviewer.as_str(), review.establishment.as_str()) {
            Some(_) => Err(StoreError::Duplicate),
            None => {
                let ghost before = self@.reviews;
                self.reviews.push(review);
                assert(self@.reviews =~= before.push(review@));
                assert forall|i: int, j: int|
                    0 <= i < j < self@.reviews.len() implies !((
                #[trigger] self@.reviews[i]).reviewer == (#[trigger] self@.reviews[j]).reviewer
                    && self@.reviews[i].establishment == self@.reviews[j].establishment) by {
                    if j == self@.reviews.len() - 1 {
                        assert(!(before[i].reviewer == review@.reviewer && before[i].establishment
                            == review@.establishment));
                    }
                }
                Ok(())
            },
        }
    }

    /// Removes the review an author made of an establishment, if any;
    /// every other review stays, in order.
    pub fn delete_review(&mut self, reviewer: &str, establishment: &str)
        requires
            old(self).wf(),
        ensures
            final(self).wf(),
            final(self)@.reviews =~= old(self)@.reviews.filter(
                not_review_key(reviewer@, establishment@),
            ),
            final(self)@.users == old(self)@.users,
    {
        let rev_key = String::from_str(reviewer);
        let est_key = String::from_str(establishment);
        let ghost all = self@.reviews;
        let ghost keep = not_review_key(reviewer@, establishment@);
        let n = self.reviews.len();
        let mut out: Vec<Review> = Vec::new();
        let mut i: usize = 0;
        while i < n
            invariant
                n == self.reviews@.len(),
                0 <= i <= n,
                rev_key@ == reviewer@,
                est_key@ == establishment@,
                all == self@.reviews,
                keep == not_review_key(reviewer@, establishment@),
                review_models(out@) =~= all.take(i as int).filter(keep),
            decreases n - i,
        {
            let ghost prefix = all.take(i as int);
            assert(all.take(i + 1).drop_last() =~= prefix);
            assert(all.take(i + 1).last() == all[i as int]);
            if !(self.reviews[i].reviewer == rev_key && self.reviews[i].establishment == est_key) {
                let ghost before = review_models(out@);
                out.push(self.reviews[i].duplicate());
                assert(review_models(out@) =~= before.push(all[i as int]));
            }
            assert(all.take(i + 1).filter(keep) =~= review_models(out@)) by {
                reveal(Seq::filter);
            }
            i = i + 1;
        }
        assert(all.take(n as int) =~= all);
        proof {
            lemma_filter_distinct(all, keep);
        }
        self.reviews = out;
    }

    /// All reviews by one author, in store order.
    pub fn get_reviews_by_reviewer(&self, reviewer: &str) -> (r: Vec<Review>)
        ensures
            review_models(r@) =~= self@.reviews.filter(by_reviewer(reviewer@)),
    {
        let key = String::from_str(reviewer);
        let ghost all = self@.reviews;
        let ghost pred = by_reviewer(reviewer@);
        let n = self.reviews.len();
        let mut out: Vec<Review> = Vec::new();
        let mut i: usize = 0;
        while i < n
            invariant
                n == self.reviews@.len(),
                0 <= i <= n,
                key@ == reviewer@,
                all == self@.reviews,
                pred == by_reviewer(reviewer@),
                review_models(out@) =~= all.take(i as int).filter(pred),
            decreases n - i,
        {
            let ghost prefix = all.take(i as int);
            assert(all.take(i + 1).drop_last() =~= prefix);
            assert(all.take(i + 1).last() == all[i as int]);
            if self.reviews[i].reviewer == key {
                let ghost before = review_models(out@);
                out.push(self.reviews[i].duplicate());
                assert(review_models(out@) =~= before.push(all[i as int]));
            }
            assert(all.take(i + 1).filter(pred) =~= review_models(out@)) by {
                reveal(Seq::filter);
            }
            i = i + 1;
        }
        assert(all.take(n as int) =~= all);
        out
    }

    /// All reviews of an establishment, in store order.
    pub fn get_reviews_of_establishment(&self, establishment: &str) -> (r: Vec<Review>)
        ensures
            review_models(r@) =~= self@.reviews.filter(of_establishment(establishment@)),
    {
        let key = String::from_str(establishment);
        let ghost all = self@.reviews;
        let ghost pred = of_establishment(establishment@);
        let n = self.reviews.len();
        let mut out: Vec<Review> = Vec::new();
        let mut i: usize = 0;
        while i < n
            invariant
                n == self.reviews@.len(),
                0 <= i <= n,
                key@ == establishment@,
                all == self@.reviews,
                pred == of_establishment(establishment@),
                review_models(out@) =~= all.take(i as int).filter(pred),
            decreases n - i,
        {
            let ghost prefix = all.take(i as int);
            assert(all.take(i + 1).drop_last() =~= prefix);
            assert(all.take(i + 1).last() == all[i as int]);
            if self.reviews[i].establishment == key {
                let ghost before = review_models(out@);
                out.push(self.reviews[i].duplicate());
                assert(review_models(out@) =~= before.push(all[i as int]));
            }
            assert(all.take(i + 1).filter(pred) =~= review_models(out@)) by {
                reveal(Seq::filter);
            }
            i = i + 1;
        }
        assert(all.take(n as int) =~= all);
        out
    }
}

} // verus!
