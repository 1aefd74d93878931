//! An in-memory image of the relational tables.
//!
//! Each table is a vector of rows in ascending order of their primary keys.
//! The store hands out the keys: a new row gets the key after the last one.
//! Token identifiers are unique across the token table.

use vstd::prelude::*;
use crate::database::models::{
    Bike, BikeTranslatable, InsertBikeTranslatable, InsertRent, InsertRentDetail,
    InsertTokenChallengeTranslatable, Rent, RentDetail, Supporter, SupporterTranslatable,
    SupporterType, Timestamp, Token, TokenChallenge, TokenChallengeTranslatable, Uuid,
};

verus! {

/// A row with a primary key.
pub trait Row {
    /// The row's primary key.
    spec fn key(&self) -> int;

    /// The row's primary key.
    fn id(&self) -> (id: i32)
        ensures
            id == self.key(),
    ;
}

impl Row for Bike {
    open spec fn key(&self) -> int {
        self.id as int
    }

    fn id(&self) -> (id: i32) {
        self.id
    }
}

impl Row for BikeTranslatable {
    open spec fn key(&self) -> int {
        self.id as int
    }

    fn id(&self) -> (id: i32) {
        self.id
    }
}

impl Row for Token {
    open spec fn key(&self) -> int {
        self.id as int
    }

    fn id(&self) -> (id: i32) {
        self.id
    }
}

impl Row for Rent {
    open spec fn key(&self) -> int {
        self.id as int
    }

    fn id(&self) -> (id: i32) {
        self.id
    }
}

impl Row for RentDetail {
    open spec fn key(&self) -> int {
        self.id as int
    }

    fn id(&self) -> (id: i32) {
        self.id
    }
}

impl Row for TokenChallenge {
    open spec fn key(&self) -> int {
        self.id as int
    }

    fn id(&self) -> (id: i32) {
        self.id
    }
}

impl Row for TokenChallengeTranslatable {
    open spec fn key(&self) -> int {
        self.id as int
    }

    fn id(&self) -> (id: i32) {
        self.id
    }
}

impl Row for SupporterType {
    open spec fn key(&self) -> int {
        self.id as int
    }

    fn id(&self) -> (id: i32) {
        self.id
    }
}

impl Row for Supporter {
    open spec fn key(&self) -> int {
        self.id as int
    }

    fn id(&self) -> (id: i32) {
        self.id
    }
}

impl Row for SupporterTranslatable {
    open spec fn key(&self) -> int {
        self.id as int
    }

    fn id(&self) -> (id: i32) {
        self.id
    }
}

/// The rows stand in strictly ascending order of their keys, so no key
/// occurs twice.
pub open spec fn keys_ascending<T: Row>(rows: Seq<T>) -> bool {
    forall|i: int, j: int| 0 <= i < j < rows.len() ==> rows[i].key() < rows[j].key()
}

/// The key that the next row of a table gets: 1 in an empty table, else the
/// successor of the last key.
pub open spec fn next_key<T: Row>(rows: Seq<T>) -> int {
    if rows.len() == 0 {
        1
    } else {
        rows.last().key() + 1
    }
}

/// A row whose key lies beyond the last key may be appended.
pub proof fn lemma_push_keeps_keys_ascending<T: Row>(rows: Seq<T>, row: T)
    requires
        keys_ascending(rows),
        rows.len() > 0 ==> rows.last().key() < row.key(),
    ensures
        keys_ascending(rows.push(row)),
{
    let grown = rows.push(row);
    assert forall|i: int, j: int| 0 <= i < j < grown.len() implies grown[i].key()
        < grown[j].key() by {
        if j == rows.len() {
            if i < rows.len() - 1 {
                assert(rows[i].key() < rows[rows.len() - 1].key());
            }
        }
    }
}

/// Why the store refused an operation.
#[derive(Debug, Clone, Copy, PartialEq, Eq, Structural)]
pub enum StoreError {
    /// The table has handed out its last key.
    KeysExhausted,
    /// The row's key does not lie beyond the table's last key.
    KeyNotAscending,
    /// A token with the same identifier exists.
    DuplicateUuid,
}

/// Text of [`StoreError::KeysExhausted`].
pub const KEYS_EXHAUSTED: &'static str = "the table has no key left for a new row";

/// Text of [`StoreError::KeyNotAscending`].
pub const KEY_NOT_ASCENDING: &'static str = "the row's key does not follow the table's last key";

/// Text of [`StoreError::DuplicateUuid`].
pub const DUPLICATE_UUID: &'static str = "a token with this identifier exists already";

impl StoreError {
    /// The text that describes the refusal.
    pub open spec fn text(&self) -> Seq<char> {
        match self {
            StoreError::KeysExhausted => KEYS_EXHAUSTED@,
            StoreError::KeyNotAscending => KEY_NOT_ASCENDING@,
            StoreError::DuplicateUuid => DUPLICATE_UUID@,
        }
    }

    /// The text that describes the refusal.
    pub fn message(&self) -> (message: String)
        ensures
            message@ == self.text(),
    {
        match self {
            StoreError::KeysExhausted => KEYS_EXHAUSTED.to_owned(),
            StoreError::KeyNotAscending => KEY_NOT_ASCENDING.to_owned(),
            StoreError::DuplicateUuid => DUPLICATE_UUID.to_owned(),
        }
    }
}

/// The key for the next row of a table, unless the keys are exhausted.
pub fn next_id<T: Row>(rows: &Vec<T>) -> (fresh: Option<i32>)
    ensures
        fresh is Some <==> next_key(rows@) <= i32::MAX,
        fresh matches Some(id) ==> id == next_key(rows@),
{
    let count = rows.len();
    if count == 0 {
        Some(1)
    } else {
        let last = rows[count - 1].id();
        if last < i32::MAX {
            Some(last + 1)
        } else {
            None
        }
    }
}

/// Appends a row that carries its key already, as when a table is read in
/// from elsewhere in key order. The row is refused, and the table left as it
/// is, unless its key lies beyond the table's last key.
pub fn append_row<T: Row>(rows: &mut Vec<T>, row: T) -> (outcome: Result<(), StoreError>)
    requires
        keys_ascending(old(rows)@),
    ensures
        keys_ascending(final(rows)@),
        outcome is Ok <==> (old(rows)@.len() > 0 ==> old(rows)@.last().key() < row.key()),
        outcome is Ok ==> final(rows)@ == old(rows)@.push(row),
        outcome is Err ==> final(rows)@ == old(rows)@ && outcome == Err::<(), StoreError>(
            StoreError::KeyNotAscending,
        ),
{
    let count = rows.len();
    if count > 0 && rows[count - 1].id() >= row.id() {
        return Err(StoreError::KeyNotAscending);
    }
    proof {
        lemma_push_keeps_keys_ascending(rows@, row);
    }
    rows.push(row);
    Ok(())
}

/// Whether the rows stand in strictly ascending order of their keys.
pub fn is_ascending<T: Row>(rows: &Vec<T>) -> (ascending: bool)
    ensures
        ascending == keys_ascending(rows@),
{
    let mut k: usize = 1;
    while k < rows.len()
        invariant
            1 <= k,
            forall|i: int, j: int| 0 <= i < j < k && j < rows@.len() ==> rows@[i].key() < rows@[j].key(),
        decreases rows.len() - k,
    {
        if rows[k - 1].id() >= rows[k].id() {
            assert(!(rows@[k - 1].key() < rows@[k as int].key()));
            return false;
        }
        assert forall|i: int, j: int| 0 <= i < j < k + 1 && j < rows@.len() implies rows@[i].key()
            < rows@[j].key() by {
            if j == k && i < k - 1 {
                assert(rows@[i].key() < rows@[k - 1].key());
            }
        }
        k += 1;
    }
    true
}

/// No two tokens share an identifier.
pub open spec fn uuids_distinct(tokens: Seq<Token>) -> bool {
    forall|i: int, j: int| 0 <= i < j < tokens.len() ==> tokens[i].uuid != tokens[j].uuid
}

/// Some token carries the identifier.
pub open spec fn uuid_known(tokens: Seq<Token>, uuid: Uuid) -> bool {
    exists|i: int| 0 <= i < tokens.len() && tokens[i].uuid == uuid
}

/// The place of the first token that carries the identifier.
pub open spec fn first_with_uuid(tokens: Seq<Token>, uuid: Uuid) -> int {
    choose|k: int|
        0 <= k < tokens.len() && tokens[k].uuid == uuid && forall|j: int|
            0 <= j < k ==> tokens[j].uuid != uuid
}

/// The first token that carries the identifier, if one does. Where no two
/// tokens share an identifier it is the only one.
pub open spec fn token_with_uuid(tokens: Seq<Token>, uuid: Uuid) -> Option<Token> {
    if uuid_known(tokens, uuid) {
        Some(tokens[first_with_uuid(tokens, uuid)])
    } else {
        None
    }
}

/// The tables as sequences of rows: what a store holds.
pub struct Tables {
    pub bikes: Seq<Bike>,
    pub bike_translatables: Seq<BikeTranslatable>,
    pub tokens: Seq<Token>,
    pub rents: Seq<Rent>,
    pub rent_details: Seq<RentDetail>,
    pub token_challenges: Seq<TokenChallenge>,
    pub token_challenge_translatables: Seq<TokenChallengeTranslatable>,
    pub supporter_types: Seq<SupporterType>,
    pub supporters: Seq<Supporter>,
    pub supporter_translatables: Seq<SupporterTranslatable>,
}

impl Tables {
    /// Every table stands in ascending key order, and no two tokens share an
    /// identifier.
    pub open spec fn wf(self) -> bool {
        &&& keys_ascending(self.bikes)
        &&& keys_ascending(self.bike_translatables)
        &&& keys_ascending(self.tokens)
        &&& keys_ascending(self.rents)
        &&& keys_ascending(self.rent_details)
        &&& keys_ascending(self.token_challenges)
        &&& keys_ascending(self.token_challenge_translatables)
        &&& keys_ascending(self.supporter_types)
        &&& keys_ascending(self.supporters)
        &&& keys_ascending(self.supporter_translatables)
        &&& uuids_distinct(self.tokens)
    }

    /// The tables of an empty store.
    pub open spec fn empty() -> Tables {
        Tables {
            bikes: Seq::empty(),
            bike_translatables: Seq::empty(),
            tokens: Seq::empty(),
            rents: Seq::empty(),
            rent_details: Seq::empty(),
            token_challenges: Seq::empty(),
            token_challenge_translatables: Seq::empty(),
            supporter_types: Seq::empty(),
            supporters: Seq::empty(),
            supporter_translatables: Seq::empty(),
        }
    }
}

/// The relational state: one vector of rows per table.
///
/// A store is a value that its holder has to itself, so each operation on
/// it runs undisturbed. Where the tables are shared, the holder reads them
/// in and writes them back within one serializable transaction.
#[derive(Debug, Clone)]
pub struct Store {
    pub bikes: Vec<Bike>,
    pub bike_translatables: Vec<BikeTranslatable>,
    pub tokens: Vec<Token>,
    pub rents: Vec<Rent>,
    pub rent_details: Vec<RentDetail>,
    pub token_challenges: Vec<TokenChallenge>,
    pub token_challenge_translatables: Vec<TokenChallengeTranslatable>,
    pub supporter_types: Vec<SupporterType>,
    pub supporters: Vec<Supporter>,
    pub supporter_translatables: Vec<SupporterTranslatable>,
}

impl View for Store {
    type V = Tables;

    open spec fn view(&self) -> Tables {
        Tables {
            bikes: self.bikes@,
            bike_translatables: self.bike_translatables@,
            tokens: self.tokens@,
            rents: self.rents@,
            rent_details: self.rent_details@,
            token_challenges: self.token_challenges@,
            token_challenge_translatables: self.token_challenge_translatables@,
            supporter_types: self.supporter_types@,
            supporters: self.supporters@,
            supporter_translatables: self.supporter_translatables@,
        }
    }
}

impl Store {
    /// The store's tables are well formed.
    pub open spec fn wf(&self) -> bool {
        self@.wf()
    }

    /// A store without rows.
    pub fn new() -> (store: Store)
        ensures
            store.wf(),
            store@ == Tables::empty(),
    {
        Store {
            bikes: Vec::new(),
            bike_translatables: Vec::new(),
            tokens: Vec::new(),
            rents: Vec::new(),
            rent_details: Vec::new(),
            token_challenges: Vec::new(),
            token_challenge_translatables: Vec::new(),
            supporter_types: Vec::new(),
            supporters: Vec::new(),
            supporter_translatables: Vec::new(),
        }
    }

    /// Whether the store's tables are well formed. A store that was filled
    /// through its own operations is; one whose tables were written directly
    /// is to be checked before use.
    pub fn is_consistent(&self) -> (consistent: bool)
        ensures
            consistent == self.wf(),
    {
        is_ascending(&self.bikes) && is_ascending(&self.bike_translatables) && is_ascending(
            &self.tokens,
        ) && is_ascending(&self.rents) && is_ascending(&self.rent_details) && is_ascending(
            &self.token_challenges,
        ) && is_ascending(&self.token_challenge_translatables) && is_ascending(
            &self.supporter_types,
        ) && is_ascending(&self.supporters) && is_ascending(&self.supporter_translatables)
            && self.has_distinct_uuids()
    }

    /// Whether no two tokens share an identifier.
    pub fn has_distinct_uuids(&self) -> (distinct: bool)
        ensures
            distinct == uuids_distinct(self@.tokens),
    {
        let mut j: usize = 0;
        while j < self.tokens.len()
            invariant
                j <= self.tokens.len(),
                forall|a: int, b: int|
                    0 <= a < b < j ==> self.tokens@[a].uuid != self.tokens@[b].uuid,
            decreases self.tokens.len() - j,
        {
            let mut i: usize = 0;
            while i < j
                invariant
                    i <= j < self.tokens.len(),
                    forall|a: int| 0 <= a < i ==> self.tokens@[a].uuid != self.tokens@[j as int].uuid,
                decreases j - i,
            {
                if self.tokens[i].uuid == self.tokens[j].uuid {
                    return false;
                }
                i += 1;
            }
            j += 1;
        }
        true
    }

    /// Adds a bike. The store hands out its key.
    pub fn insert_bike(&mut self) -> (outcome: Result<Bike, StoreError>)
        requires
            old(self).wf(),
        ensures
            final(self).wf(),
            outcome is Ok <==> next_key(old(self)@.bikes) <= i32::MAX,
            outcome matches Ok(bike) ==> bike.id == next_key(old(self)@.bikes) && final(self)@ == (
            Tables { bikes: old(self)@.bikes.push(bike), ..old(self)@ }),
            outcome matches Err(refusal) ==> refusal == StoreError::KeysExhausted && final(self)@
                == old(self)@,
    {
        match next_id(&self.bikes) {
            None => Err(StoreError::KeysExhausted),
            Some(id) => {
                let bike = Bike { id };
                proof {
                    lemma_push_keeps_keys_ascending(self.bikes@, bike);
                }
                self.bikes.push(bike);
                Ok(bike)
            },
        }
    }

    /// Adds the display data of a bike in one locale. The store hands out
    /// its key.
    pub fn insert_bike_translatable(&mut self, values: InsertBikeTranslatable) -> (outcome: Result<
        BikeTranslatable,
        StoreError,
    >)
        requires
            old(self).wf(),
        ensures
            final(self).wf(),
            outcome is Ok <==> next_key(old(self)@.bike_translatables) <= i32::MAX,
            outcome matches Ok(row) ==> {
                &&& row.id == next_key(old(self)@.bike_translatables)
                &&& row.bike_id == values.bike_id
                &&& row.locale == values.locale
                &&& row.title == values.title
                &&& row.description == values.description
                &&& row.url == values.url
                &&& final(self)@ == (Tables {
                    bike_translatables: old(self)@.bike_translatables.push(row),
                    ..old(self)@
                })
            },
            outcome matches Err(refusal) ==> refusal == StoreError::KeysExhausted && final(self)@
                == old(self)@,
    {
        match next_id(&self.bike_translatables) {
            None => Err(StoreError::KeysExhausted),
            Some(id) => {
                let row = BikeTranslatable {
                    id,
                    bike_id: values.bike_id,
                    locale: values.locale,
                    title: values.title,
                    description: values.description,
                    url: values.url,
                };
                let copy = row.clone();
                proof {
                    lemma_push_keeps_keys_ascending(self.bike_translatables@, row);
                }
                self.bike_translatables.push(row);
                Ok(copy)
            },
        }
    }

    /// The first token with the given identifier, if there is one. In a well
    /// formed store there is at most one.
    pub fn find_token(&self, uuid: Uuid) -> (found: Option<Token>)
        ensures
            found == token_with_uuid(self@.tokens, uuid),
            found matches Some(token) ==> token.uuid == uuid && self@.tokens.contains(token),
    {
        let mut k: usize = 0;
        while k < self.tokens.len()
            invariant
                k <= self.tokens.len(),
                forall|j: int| 0 <= j < k ==> self.tokens@[j].uuid != uuid,
            decreases self.tokens.len() - k,
        {
            if self.tokens[k].uuid == uuid {
                proof {
                    let first = first_with_uuid(self.tokens@, uuid);
                    assert(first == k) by {
                        if first < k {
                            assert(self.tokens@[first].uuid != uuid);
                        }
                    }
                }
                return Some(self.tokens[k]);
            }
            k += 1;
        }
        None
    }

    /// Adds a token with the given identifier, created at `now`. The store
    /// hands out its key, and refuses an identifier that a token carries
    /// already.
    pub fn insert_token(&mut self, uuid: Uuid, now: Timestamp) -> (outcome: Result<
        Token,
        StoreError,
    >)
        requires
            old(self).wf(),
        ensures
            final(self).wf(),
            outcome is Ok <==> !uuid_known(old(self)@.tokens, uuid) && next_key(old(self)@.tokens)
                <= i32::MAX,
            outcome matches Ok(token) ==> {
                &&& token == (Token { id: next_key(old(self)@.tokens) as i32, uuid, created_at: now })
                &&& final(self)@ == (Tables { tokens: old(self)@.tokens.push(token), ..old(self)@ })
            },
            outcome matches Err(refusal) ==> {
                &&& final(self)@ == old(self)@
                &&& refusal == if uuid_known(old(self)@.tokens, uuid) {
                    StoreError::DuplicateUuid
                } else {
                    StoreError::KeysExhausted
                }
            },
    {
        if self.find_token(uuid).is_some() {
            return Err(StoreError::DuplicateUuid);
        }
        match next_id(&self.tokens) {
            None => Err(StoreError::KeysExhausted),
            Some(id) => {
                let token = Token { id, uuid, created_at: now };
                proof {
                    lemma_push_keeps_keys_ascending(self.tokens@, token);
                    let grown = self.tokens@.push(token);
                    assert forall|i: int, j: int| 0 <= i < j < grown.len() implies grown[i].uuid
                        != grown[j].uuid by {
                        if j == self.tokens@.len() {
                            assert(self.tokens@[i].uuid != uuid);
                        }
                    }
                }
                self.tokens.push(token);
                Ok(token)
            },
        }
    }

    /// Adds an active rent, created at `now`. The store hands out its key.
    pub fn insert_rent(&mut self, values: InsertRent, now: Timestamp) -> (outcome: Result<
        Rent,
        StoreError,
    >)
        requires
            old(self).wf(),
        ensures
            final(self).wf(),
            outcome is Ok <==> next_key(old(self)@.rents) <= i32::MAX,
            outcome matches Ok(rent) ==> {
                &&& rent == new_rent(next_key(old(self)@.rents) as i32, values, now)
                &&& final(self)@ == (Tables { rents: old(self)@.rents.push(rent), ..old(self)@ })
            },
            outcome matches Err(refusal) ==> refusal == StoreError::KeysExhausted && final(self)@
                == old(self)@,
    {
        match next_id(&self.rents) {
            None => Err(StoreError::KeysExhausted),
            Some(id) => {
                let rent = Rent {
                    id,
                    token_id: values.token_id,
                    bike_id: values.bike_id,
                    created_at: now,
                    start_timestamp: values.start_timestamp,
                    end_timestamp: values.end_timestamp,
                    revocation_timestamp: None,
                };
                proof {
                    lemma_push_keeps_keys_ascending(self.rents@, rent);
                }
                self.rents.push(rent);
                Ok(rent)
            },
        }
    }

    /// Adds the detail record of a rent. The store hands out its key.
    pub fn insert_rent_detail(&mut self, values: InsertRentDetail) -> (outcome: Result<
        RentDetail,
        StoreError,
    >)
        requires
            old(self).wf(),
        ensures
            final(self).wf(),
            outcome is Ok <==> next_key(old(self)@.rent_details) <= i32::MAX,
            outcome matches Ok(detail) ==> {
                &&& detail == new_rent_detail(next_key(old(self)@.rent_details) as i32, values)
                &&& final(self)@ == (Tables {
                    rent_details: old(self)@.rent_details.push(detail),
                    ..old(self)@
                })
            },
            outcome matches Err(refusal) ==> refusal == StoreError::KeysExhausted && final(self)@
                == old(self)@,
    {
        match next_id(&self.rent_details) {
            None => Err(StoreError::KeysExhausted),
            Some(id) => {
                let detail = RentDetail {
                    id,
                    rent_id: Some(values.rent_id),
                    encrypted_details: values.encrypted_details,
                };
                let copy = detail.clone();
                proof {
                    lemma_push_keeps_keys_ascending(self.rent_details@, detail);
                }
                self.rent_details.push(detail);
                Ok(copy)
            },
        }
    }

    /// Adds a challenge. The store hands out its key.
    pub fn insert_token_challenge(&mut self) -> (outcome: Result<TokenChallenge, StoreError>)
        requires
            old(self).wf(),
        ensures
            final(self).wf(),
            outcome is Ok <==> next_key(old(self)@.token_challenges) <= i32::MAX,
            outcome matches Ok(challenge) ==> challenge.id == next_key(old(self)@.token_challenges)
                && final(self)@ == (Tables {
                token_challenges: old(self)@.token_challenges.push(challenge),
                ..old(self)@
            }),
            outcome matches Err(refusal) ==> refusal == StoreError::KeysExhausted && final(self)@
                == old(self)@,
    {
        match next_id(&self.token_challenges) {
            None => Err(StoreError::KeysExhausted),
            Some(id) => {
                let challenge = TokenChallenge { id };
                proof {
                    lemma_push_keeps_keys_ascending(self.token_challenges@, challenge);
                }
                self.token_challenges.push(challenge);
                Ok(challenge)
            },
        }
    }

    /// Adds a challenge's question in one locale. The store hands out its
    /// key.
    pub fn insert_token_challenge_translatable(
        &mut self,
        values: InsertTokenChallengeTranslatable,
    ) -> (outcome: Result<TokenChallengeTranslatable, StoreError>)
        requires
            old(self).wf(),
        ensures
            final(self).wf(),
            outcome is Ok <==> next_key(old(self)@.token_challenge_translatables) <= i32::MAX,
            outcome matches Ok(row) ==> {
                &&& row.id == next_key(old(self)@.token_challenge_translatables)
                &&& row.token_challenge_id == values.token_challenge_id
                &&& row.locale == values.locale
                &&& row.question == values.question
                &&& row.answer_hash == values.answer_hash
                &&& row.url == values.url
                &&& final(self)@ == (Tables {
                    token_challenge_translatables: old(self)@.token_challenge_translatables.push(
                        row,
                    ),
                    ..old(self)@
                })
            },
            outcome matches Err(refusal) ==> refusal == StoreError::KeysExhausted && final(self)@
                == old(self)@,
    {
        match next_id(&self.token_challenge_translatables) {
            None => Err(StoreError::KeysExhausted),
            Some(id) => {
                let row = TokenChallengeTranslatable {
                    id,
                    token_challenge_id: values.token_challenge_id,
                    locale: values.locale,
                    question: values.question,
                    answer_hash: values.answer_hash,
                    url: values.url,
                };
                let copy = row.clone();
                proof {
                    lemma_push_keeps_keys_ascending(self.token_challenge_translatables@, row);
                }
                self.token_challenge_translatables.push(row);
                Ok(copy)
            },
        }
    }
}

/// The rent that the store makes of the supplied columns: active, with the
/// given key and time of creation.
pub open spec fn new_rent(id: i32, values: InsertRent, now: Timestamp) -> Rent {
    Rent {
        id,
        token_id: values.token_id,
        bike_id: values.bike_id,
        created_at: now,
        start_timestamp: values.start_timestamp,
        end_timestamp: values.end_timestamp,
        revocation_timestamp: None,
    }
}

/// The detail record that the store makes of the supplied columns.
pub open spec fn new_rent_detail(id: i32, values: InsertRentDetail) -> RentDetail {
    RentDetail { id, rent_id: Some(values.rent_id), encrypted_details: values.encrypted_details }
}

} // verus!
