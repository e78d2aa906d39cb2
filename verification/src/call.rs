//! The operations of the daemon that this client knows, and what they send.

use vstd::prelude::*;
use crate::options::Aria2Options;
use crate::params::{texts, views, Param, ParamView};
use crate::text::same_text;

verus! {

/// A key of the status of a download. A status query names the keys it
/// wants; the daemon answers with those alone.
#[derive(Debug, Clone, Copy, PartialEq, Eq, Hash, Structural)]
pub enum TellStatusField {
    Gid,
    Status,
    TotalLength,
    CompletedLength,
    UploadedLength,
    BitField,
    DownloadSpeed,
    UploadSpeed,
    InfoHash,
    NumSeeders,
    Seeder,
    PieceLength,
    NumPieces,
    Connections,
    ErrorCode,
    ErrorMessage,
    FollowedBy,
    Following,
    BelongsTo,
    Dir,
    Files,
    VerifiedLength,
    VeriyIntegrityPending,
}

/// The message with which a name that is no key is refused.
pub open spec fn invalid_field() -> Seq<char> {
    "Invalid TellStatusField"@
}

/// The key with a given wire name, if there is one.
pub open spec fn field_named(name: Seq<char>) -> Option<TellStatusField> {
    if name == "gid"@ {
        Some(TellStatusField::Gid)
    } else if name == "status"@ {
        Some(TellStatusField::Status)
    } else if name == "totalLength"@ {
        Some(TellStatusField::TotalLength)
    } else if name == "completedLength"@ {
        Some(TellStatusField::CompletedLength)
    } else if name == "uploadedLength"@ {
        Some(TellStatusField::UploadedLength)
    } else if name == "bitField"@ {
        Some(TellStatusField::BitField)
    } else if name == "downloadSpeed"@ {
        Some(TellStatusField::DownloadSpeed)
    } else if name == "uploadSpeed"@ {
        Some(TellStatusField::UploadSpeed)
    } else if name == "infoHash"@ {
        Some(TellStatusField::InfoHash)
    } else if name == "numSeeders"@ {
        Some(TellStatusField::NumSeeders)
    } else if name == "seeder"@ {
        Some(TellStatusField::Seeder)
    } else if name == "pieceLength"@ {
        Some(TellStatusField::PieceLength)
    } else if name == "numPieces"@ {
        Some(TellStatusField::NumPieces)
    } else if name == "connections"@ {
        Some(TellStatusField::Connections)
    } else if name == "errorCode"@ {
        Some(TellStatusField::ErrorCode)
    } else if name == "errorMessage"@ {
        Some(TellStatusField::ErrorMessage)
    } else if name == "followedBy"@ {
        Some(TellStatusField::FollowedBy)
    } else if name == "following"@ {
        Some(TellStatusField::Following)
    } else if name == "belongsTo"@ {
        Some(TellStatusField::BelongsTo)
    } else if name == "dir"@ {
        Some(TellStatusField::Dir)
    } else if name == "files"@ {
        Some(TellStatusField::Files)
    } else if name == "verifiedLength"@ {
        Some(TellStatusField::VerifiedLength)
    } else if name == "veriyIntegrityPending"@ {
        Some(TellStatusField::VeriyIntegrityPending)
    } else {
        None
    }
}

impl TellStatusField {
    /// The key's name on the wire.
    pub open spec fn name(self) -> Seq<char> {
        match self {
            TellStatusField::Gid => "gid"@,
            TellStatusField::Status => "status"@,
            TellStatusField::TotalLength => "totalLength"@,
            TellStatusField::CompletedLength => "completedLength"@,
            TellStatusField::UploadedLength => "uploadedLength"@,
            TellStatusField::BitField => "bitField"@,
            TellStatusField::DownloadSpeed => "downloadSpeed"@,
            TellStatusField::UploadSpeed => "uploadSpeed"@,
            TellStatusField::InfoHash => "infoHash"@,
            TellStatusField::NumSeeders => "numSeeders"@,
            TellStatusField::Seeder => "seeder"@,
            TellStatusField::PieceLength => "pieceLength"@,
            TellStatusField::NumPieces => "numPieces"@,
            TellStatusField::Connections => "connections"@,
            TellStatusField::ErrorCode => "errorCode"@,
            TellStatusField::ErrorMessage => "errorMessage"@,
            TellStatusField::FollowedBy => "followedBy"@,
            TellStatusField::Following => "following"@,
            TellStatusField::BelongsTo => "belongsTo"@,
            TellStatusField::Dir => "dir"@,
            TellStatusField::Files => "files"@,
            TellStatusField::VerifiedLength => "verifiedLength"@,
            TellStatusField::VeriyIntegrityPending => "veriyIntegrityPending"@,
        }
    }

    /// The key's name on the wire.
    pub fn as_str(&self) -> (r: &'static str)
        ensures
            r@ == self.name(),
    {
        match self {
            TellStatusField::Gid => "gid",
            TellStatusField::Status => "status",
            TellStatusField::TotalLength => "totalLength",
            TellStatusField::CompletedLength => "completedLength",
            TellStatusField::UploadedLength => "uploadedLength",
            TellStatusField::BitField => "bitField",
            TellStatusField::DownloadSpeed => "downloadSpeed",
            TellStatusField::UploadSpeed => "uploadSpeed",
            TellStatusField::InfoHash => "infoHash",
            TellStatusField::NumSeeders => "numSeeders",
            TellStatusField::Seeder => "seeder",
            TellStatusField::PieceLength => "pieceLength",
            TellStatusField::NumPieces => "numPieces",
            TellStatusField::Connections => "connections",
            TellStatusField::ErrorCode => "errorCode",
            TellStatusField::ErrorMessage => "errorMessage",
            TellStatusField::FollowedBy => "followedBy",
            TellStatusField::Following => "following",
            TellStatusField::BelongsTo => "belongsTo",
            TellStatusField::Dir => "dir",
            TellStatusField::Files => "files",
            TellStatusField::VerifiedLength => "verifiedLength",
            TellStatusField::VeriyIntegrityPending => "veriyIntegrityPending",
        }
    }

    /// What looking a name up gives: the key, or the refusal.
    pub open spec fn spec_from_name(name: Seq<char>) -> Result<Self, &'static str> {
        match field_named(name) {
            Some(field) => Ok(field),
            None => Err("Invalid TellStatusField"),
        }
    }

    /// The key with the given wire name.
    pub fn from_name(value: &str) -> (r: Result<Self, &'static str>)
        ensures
            r == Self::spec_from_name(value@),
    {
        if same_text(value, "gid") {
            Ok(Self::Gid)
        } else if same_text(value, "status") {
            Ok(Self::Status)
        } else if same_text(value, "totalLength") {
            Ok(Self::TotalLength)
        } else if same_text(value, "completedLength") {
            Ok(Self::CompletedLength)
        } else if same_text(value, "uploadedLength") {
            Ok(Self::UploadedLength)
        } else if same_text(value, "bitField") {
            Ok(Self::BitField)
        } else if same_text(value, "downloadSpeed") {
            Ok(Self::DownloadSpeed)
        } else if same_text(value, "uploadSpeed") {
            Ok(Self::UploadSpeed)
        } else if same_text(value, "infoHash") {
            Ok(Self::InfoHash)
        } else if same_text(value, "numSeeders") {
            Ok(Self::NumSeeders)
        } else if same_text(value, "seeder") {
            Ok(Self::Seeder)
        } else if same_text(value, "pieceLength") {
            Ok(Self::PieceLength)
        } else if same_text(value, "numPieces") {
            Ok(Self::NumPieces)
        } else if same_text(value, "connections") {
            Ok(Self::Connections)
        } else if same_text(value, "errorCode") {
            Ok(Self::ErrorCode)
        } else if same_text(value, "errorMessage") {
            Ok(Self::ErrorMessage)
        } else if same_text(value, "followedBy") {
            Ok(Self::FollowedBy)
        } else if same_text(value, "following") {
            Ok(Self::Following)
        } else if same_text(value, "belongsTo") {
            Ok(Self::BelongsTo)
        } else if same_text(value, "dir") {
            Ok(Self::Dir)
        } else if same_text(value, "files") {
            Ok(Self::Files)
        } else if same_text(value, "verifiedLength") {
            Ok(Self::VerifiedLength)
        } else if same_text(value, "veriyIntegrityPending") {
            Ok(Self::VeriyIntegrityPending)
        } else {
            Err("Invalid TellStatusField")
        }
    }
}

impl<'a> TryFrom<&'a str> for TellStatusField {
    type Error = &'static str;

    fn try_from(value: &'a str) -> (r: Result<Self, Self::Error>) {
        TellStatusField::from_name(value)
    }
}

impl<'a> vstd::std_specs::convert::TryFromSpecImpl<&'a str> for TellStatusField {
    open spec fn obeys_try_from_spec() -> bool {
        true
    }

    open spec fn try_from_spec(value: &'a str) -> Result<Self, Self::Error> {
        TellStatusField::spec_from_name(value@)
    }
}

/// The length and the first two characters of a name: enough to tell the
/// wire names apart.
spec fn signature(name: Seq<char>) -> (nat, char, char) {
    (name.len(), name[0], name[1])
}

/// Every key is found again under its own name, and under no other: the wire
/// names are pairwise different.
pub proof fn law_field_names_round_trip(field: TellStatusField)
    ensures
        field_named(field.name()) == Some(field),
{
    reveal_strlit("gid");
    reveal_strlit("status");
    reveal_strlit("totalLength");
    reveal_strlit("completedLength");
    reveal_strlit("uploadedLength");
    reveal_strlit("bitField");
    reveal_strlit("downloadSpeed");
    reveal_strlit("uploadSpeed");
    reveal_strlit("infoHash");
    reveal_strlit("numSeeders");
    reveal_strlit("seeder");
    reveal_strlit("pieceLength");
    reveal_strlit("numPieces");
    reveal_strlit("connections");
    reveal_strlit("errorCode");
    reveal_strlit("errorMessage");
    reveal_strlit("followedBy");
    reveal_strlit("following");
    reveal_strlit("belongsTo");
    reveal_strlit("dir");
    reveal_strlit("files");
    reveal_strlit("verifiedLength");
    reveal_strlit("veriyIntegrityPending");
    assert(signature("gid"@) == (3nat, 'g', 'i'));
    assert(signature("status"@) == (6nat, 's', 't'));
    assert(signature("totalLength"@) == (11nat, 't', 'o'));
    assert(signature("completedLength"@) == (15nat, 'c', 'o'));
    assert(signature("uploadedLength"@) == (14nat, 'u', 'p'));
    assert(signature("bitField"@) == (8nat, 'b', 'i'));
    assert(signature("downloadSpeed"@) == (13nat, 'd', 'o'));
    assert(signature("uploadSpeed"@) == (11nat, 'u', 'p'));
    assert(signature("infoHash"@) == (8nat, 'i', 'n'));
    assert(signature("numSeeders"@) == (10nat, 'n', 'u'));
    assert(signature("seeder"@) == (6nat, 's', 'e'));
    assert(signature("pieceLength"@) == (11nat, 'p', 'i'));
    assert(signature("numPieces"@) == (9nat, 'n', 'u'));
    assert(signature("connections"@) == (11nat, 'c', 'o'));
    assert(signature("errorCode"@) == (9nat, 'e', 'r'));
    assert(signature("errorMessage"@) == (12nat, 'e', 'r'));
    assert(signature("followedBy"@) == (10nat, 'f', 'o'));
    assert(signature("following"@) == (9nat, 'f', 'o'));
    assert(signature("belongsTo"@) == (9nat, 'b', 'e'));
    assert(signature("dir"@) == (3nat, 'd', 'i'));
    assert(signature("files"@) == (5nat, 'f', 'i'));
    assert(signature("verifiedLength"@) == (14nat, 'v', 'e'));
    assert(signature("veriyIntegrityPending"@) == (21nat, 'v', 'e'));
}

/// A name that denotes a key is that key's wire name.
pub proof fn law_field_named_is_its_name(name: Seq<char>, field: TellStatusField)
    requires
        field_named(name) == Some(field),
    ensures
        field.name() == name,
{
}

/// A set of keys with one more key in it.
pub open spec fn inserted(set: Seq<TellStatusField>, field: TellStatusField) -> Seq<
    TellStatusField,
> {
    if set.contains(field) {
        set
    } else {
        set.push(field)
    }
}

/// The set of the keys of a list: each key once, in the order of its first
/// occurrence.
pub open spec fn gathered(fields: Seq<TellStatusField>) -> Seq<TellStatusField>
    decreases fields.len(),
{
    if fields.len() == 0 {
        Seq::empty()
    } else {
        inserted(gathered(fields.drop_last()), fields.last())
    }
}

/// The characters of each name of a list.
pub open spec fn names_view(names: Seq<&str>) -> Seq<Seq<char>> {
    Seq::new(names.len(), |i: int| names[i]@)
}

/// Whether every name of a list is the wire name of a key.
pub open spec fn all_named(names: Seq<Seq<char>>) -> bool {
    forall|i: int| 0 <= i < names.len() ==> (#[trigger] field_named(names[i])) is Some
}

/// The keys that a list of wire names denotes.
pub open spec fn fields_named(names: Seq<Seq<char>>) -> Seq<TellStatusField> {
    Seq::new(names.len(), |i: int| field_named(names[i]).unwrap())
}

/// A set of keys. It remembers the order in which the keys were first added,
/// which is the order in which they are sent.
#[derive(Debug)]
pub struct FieldSet {
    items: Vec<TellStatusField>,
}

impl View for FieldSet {
    type V = Seq<TellStatusField>;

    closed spec fn view(&self) -> Seq<TellStatusField> {
        self.items@
    }
}

impl FieldSet {
    #[verifier::type_invariant]
    closed spec fn distinct(self) -> bool {
        self.items@.no_duplicates()
    }

    /// The empty set.
    pub fn new() -> (r: Self)
        ensures
            r@ == Seq::<TellStatusField>::empty(),
    {
        FieldSet { items: Vec::new() }
    }

    /// How many keys the set holds. No key occurs twice in it.
    pub fn len(&self) -> (r: usize)
        ensures
            r == self@.len(),
            self@.no_duplicates(),
    {
        proof {
            use_type_invariant(self);
        }
        self.items.len()
    }

    /// Whether the set holds a key.
    pub fn contains(&self, field: TellStatusField) -> (r: bool)
        ensures
            r == self@.contains(field),
    {
        let mut i: usize = 0;
        while i < self.items.len()
            invariant
                i <= self.items.len(),
                forall|j: int| 0 <= j < i ==> self.items@[j] != field,
            decreases self.items.len() - i,
        {
            if self.items[i] == field {
                return true;
            }
            i += 1;
        }
        false
    }

    /// The set with one more key, unless it holds the key already.
    pub fn with(self, field: TellStatusField) -> (r: Self)
        ensures
            r@ == inserted(self@, field),
    {
        proof {
            use_type_invariant(&self);
        }
        if self.contains(field) {
            self
        } else {
            let ghost before = self.items@;
            let mut items = self.items;
            items.push(field);
            assert(items@.no_duplicates()) by {
                assert forall|i: int, j: int|
                    0 <= i < items@.len() && 0 <= j < items@.len() && i != j implies items@[i]
                    != items@[j] by {
                    if i < before.len() && j < before.len() {
                    } else if i < before.len() {
                        assert(before.contains(before[i]));
                    } else {
                        assert(before.contains(before[j]));
                    }
                }
            }
            FieldSet { items }
        }
    }

    /// The keys of the set, in order. No key occurs twice.
    pub fn to_vec(&self) -> (r: Vec<TellStatusField>)
        ensures
            r@ == self@,
            r@.no_duplicates(),
    {
        proof {
            use_type_invariant(self);
        }
        let mut out: Vec<TellStatusField> = Vec::new();
        let mut i: usize = 0;
        while i < self.items.len()
            invariant
                i <= self.items.len(),
                out@ == self.items@.take(i as int),
            decreases self.items.len() - i,
        {
            out.push(self.items[i]);
            assert(out@ =~= self.items@.take(i + 1));
            i += 1;
        }
        assert(out@ =~= self.items@);
        out
    }

    /// The set of the keys of a list.
    pub fn from_fields(fields: &Vec<TellStatusField>) -> (r: Self)
        ensures
            r@ == gathered(fields@),
    {
        let mut set = FieldSet::new();
        let mut i: usize = 0;
        assert(fields@.take(0) =~= Seq::empty());
        while i < fields.len()
            invariant
                i <= fields.len(),
                set@ == gathered(fields@.take(i as int)),
            decreases fields.len() - i,
        {
            set = set.with(fields[i]);
            proof {
                assert(fields@.take(i + 1).drop_last() =~= fields@.take(i as int));
                assert(fields@.take(i + 1).last() == fields@[i as int]);
            }
            i += 1;
        }
        assert(fields@.take(i as int) =~= fields@);
        set
    }

    /// The set of the keys that a list of wire names denotes, or the refusal
    /// of the first name that denotes none.
    pub fn from_names(names: &Vec<&str>) -> (r: Result<Self, &'static str>)
        ensures
            match r {
                Ok(set) => all_named(names_view(names@)) && set@ == gathered(
                    fields_named(names_view(names@)),
                ),
                Err(message) => !all_named(names_view(names@)) && message@ == invalid_field(),
            },
    {
        let ghost all = fields_named(names_view(names@));
        let mut set = FieldSet::new();
        let mut i: usize = 0;
        assert(all.take(0) =~= Seq::empty());
        while i < names.len()
            invariant
                i <= names.len(),
                all == fields_named(names_view(names@)),
                forall|j: int| 0 <= j < i ==> (#[trigger] field_named(names_view(names@)[j])) is Some,
                set@ == gathered(all.take(i as int)),
            decreases names.len() - i,
        {
            match TellStatusField::from_name(names[i]) {
                Ok(field) => {
                    set = set.with(field);
                    proof {
                        assert(names_view(names@)[i as int] == names@[i as int]@);
                        assert(all.take(i + 1).drop_last() =~= all.take(i as int));
                        assert(all.take(i + 1).last() == field);
                    }
                },
                Err(message) => {
                    proof {
                        assert(names_view(names@)[i as int] == names@[i as int]@);
                        assert(field_named(names_view(names@)[i as int]) is None);
                    }
                    return Err(message);
                },
            }
            i += 1;
        }
        assert(all.take(i as int) =~= all);
        Ok(set)
    }
}

impl Clone for FieldSet {
    fn clone(&self) -> (r: Self)
        ensures
            r@ == self@,
    {
        FieldSet { items: self.to_vec() }
    }
}

/// The keys of an optional set.
pub open spec fn keys_view(keys: Option<FieldSet>) -> Option<Seq<TellStatusField>> {
    match keys {
        Some(set) => Some(set@),
        None => None,
    }
}

/// The keys that a query asks for once a list of keys has replaced them:
/// every key of the status where no list is given.
pub open spec fn keys_of_fields(fields: Option<Vec<TellStatusField>>) -> Option<
    Seq<TellStatusField>,
> {
    match fields {
        Some(list) => Some(gathered(list@)),
        None => None,
    }
}

/// The keys that a query asks for once one more key is asked for.
pub open spec fn keys_with(keys: Option<Seq<TellStatusField>>, field: TellStatusField) -> Option<
    Seq<TellStatusField>,
> {
    match keys {
        Some(set) => Some(inserted(set, field)),
        None => Some(seq![field]),
    }
}

/// Whether a list of wire names, if one is given, holds names of keys only.
pub open spec fn names_valid(names: Option<Vec<&str>>) -> bool {
    match names {
        Some(list) => all_named(names_view(list@)),
        None => true,
    }
}

/// The keys that a query asks for once a list of wire names has replaced them.
pub open spec fn keys_of_names(names: Option<Vec<&str>>) -> Option<Seq<TellStatusField>> {
    match names {
        Some(list) => Some(gathered(fields_named(names_view(list@)))),
        None => None,
    }
}

fn replace_fields(fields: Option<Vec<TellStatusField>>) -> (r: Option<FieldSet>)
    ensures
        keys_view(r) == keys_of_fields(fields),
{
    match fields {
        Some(list) => Some(FieldSet::from_fields(&list)),
        None => None,
    }
}

fn add_field(keys: Option<FieldSet>, field: TellStatusField) -> (r: Option<FieldSet>)
    ensures
        keys_view(r) == keys_with(keys_view(keys), field),
{
    let set = match keys {
        Some(set) => set,
        None => FieldSet::new(),
    };
    let set = set.with(field);
    proof {
        if keys is None {
            assert(inserted(Seq::<TellStatusField>::empty(), field) =~= seq![field]);
        }
    }
    Some(set)
}

fn replace_names(names: Option<Vec<&str>>) -> (r: Result<Option<FieldSet>, &'static str>)
    ensures
        match r {
            Ok(keys) => names_valid(names) && keys_view(keys) == keys_of_names(names),
            Err(message) => !names_valid(names) && message@ == invalid_field(),
        },
{
    match names {
        Some(list) => match FieldSet::from_names(&list) {
            Ok(set) => Ok(Some(set)),
            Err(message) => Err(message),
        },
        None => Ok(None),
    }
}

fn copy_keys(keys: &Option<FieldSet>) -> (r: Option<Vec<TellStatusField>>)
    ensures
        match r {
            Some(list) => keys_view(*keys) == Some(list@),
            None => keys_view(*keys) is None,
        },
{
    match keys {
        Some(set) => Some(set.to_vec()),
        None => None,
    }
}

/// An operation of the daemon: its method name, and the parameters it sends.
///
/// The client puts the secret token, if it has one, before the operation's
/// own parameters. An operation that declares no parameter list sends none,
/// and then the token is not sent either.
pub trait Call: Sized {
    /// The method name on the wire.
    spec fn spec_method(&self) -> Seq<char>;

    /// Whether the operation declares a parameter list.
    spec fn spec_sends_params(&self) -> bool;

    /// The operation's own parameters, in wire order.
    spec fn spec_params(&self) -> Seq<ParamView>;

    /// The method name on the wire.
    fn method(&self) -> (r: &'static str)
        ensures
            r@ == self.spec_method(),
    ;

    /// Appends the operation's own parameters to a list.
    fn serialize_params(&self, serializer: &mut Vec<Param>)
        ensures
            views(final(serializer)@) == views(old(serializer)@) + self.spec_params(),
    ;

    /// The operation with the token it is sent with; nothing where the
    /// operation declares no parameter list.
    fn to_params<'a>(self, token: Option<&'a str>) -> (r: Option<Aria2Params<'a, Self>>)
        ensures
            r is Some == self.spec_sends_params(),
            r matches Some(p) ==> p.spec_token() == token_view(token) && p.spec_call() == self,
    ;
}

/// The characters of an optional token.
pub open spec fn token_view(token: Option<&str>) -> Option<Seq<char>> {
    match token {
        Some(t) => Some(t@),
        None => None,
    }
}

/// The parameters that the token contributes: itself, where there is one.
pub open spec fn token_params(token: Option<Seq<char>>) -> Seq<ParamView> {
    match token {
        Some(t) => seq![ParamView::Text(t)],
        None => Seq::empty(),
    }
}

/// The parameter list that goes over the wire for an operation: the token
/// first, then the operation's own parameters; none at all where the
/// operation declares no parameter list.
pub open spec fn wire_params<C: Call>(call: C, token: Option<Seq<char>>) -> Option<
    Seq<ParamView>,
> {
    if call.spec_sends_params() {
        Some(token_params(token) + call.spec_params())
    } else {
        None
    }
}

/// An operation together with the token it is sent with. The token has its
/// wire prefix already.
#[derive(Debug)]
pub struct Aria2Params<'a, T> {
    token: Option<&'a str>,
    params: T,
}

impl<'a, T> Aria2Params<'a, T> {
    /// The token.
    pub closed spec fn spec_token(&self) -> Option<Seq<char>> {
        token_view(self.token)
    }

    /// The operation.
    pub closed spec fn spec_call(&self) -> T {
        self.params
    }

    /// An operation with the token it is sent with.
    pub fn new(token: Option<&'a str>, params: T) -> (r: Self)
        ensures
            r.spec_token() == token_view(token),
            r.spec_call() == params,
    {
        Self { token, params }
    }
}

impl<'a, T: Call> Aria2Params<'a, T> {
    /// The parameter list: the token, where there is one, then the
    /// operation's own parameters.
    pub fn serialize(&self) -> (r: Vec<Param>)
        ensures
            views(r@) == token_params(self.spec_token()) + self.spec_call().spec_params(),
    {
        let mut seq: Vec<Param> = Vec::new();
        if let Some(token) = self.token {
            seq.push(Param::Text(token.to_owned()));
        }
        assert(views(seq@) =~= token_params(self.spec_token()));
        self.params.serialize_params(&mut seq);
        seq
    }
}

/// Appends one parameter to a list.
fn push_param(serializer: &mut Vec<Param>, param: Param)
    ensures
        views(final(serializer)@) == views(old(serializer)@).push(param@),
{
    serializer.push(param);
    assert(views(final(serializer)@) =~= views(old(serializer)@).push(param@));
}

/// A copy of a list of strings.
fn copy_texts(list: &Vec<String>) -> (r: Vec<String>)
    ensures
        texts(r@) == texts(list@),
{
    let mut out: Vec<String> = Vec::new();
    let mut i: usize = 0;
    while i < list.len()
        invariant
            i <= list.len(),
            out.len() == i,
            forall|j: int| 0 <= j < i ==> out@[j]@ == list@[j]@,
        decreases list.len() - i,
    {
        out.push(list[i].clone());
        i += 1;
    }
    assert(texts(out@) =~= texts(list@));
    out
}

/// Lists the methods that the daemon offers. It declares no parameter list.
#[derive(Debug)]
pub struct SystemListMethods;

impl Call for SystemListMethods {
    open spec fn spec_method(&self) -> Seq<char> {
        "system.listMethods"@
    }

    open spec fn spec_sends_params(&self) -> bool {
        false
    }

    open spec fn spec_params(&self) -> Seq<ParamView> {
        Seq::empty()
    }

    fn method(&self) -> (r: &'static str) {
        "system.listMethods"
    }

    fn serialize_params(&self, serializer: &mut Vec<Param>) {
        assert(views(serializer@) =~= views(serializer@) + Seq::<ParamView>::empty());
    }

    fn to_params<'a>(self, _token: Option<&'a str>) -> (r: Option<Aria2Params<'a, Self>>) {
        None
    }
}

/// Asks for the daemon's version.
#[derive(Debug)]
pub struct GetVersion;

impl Call for GetVersion {
    open spec fn spec_method(&self) -> Seq<char> {
        "aria2.getVersion"@
    }

    open spec fn spec_sends_params(&self) -> bool {
        true
    }

    open spec fn spec_params(&self) -> Seq<ParamView> {
        Seq::empty()
    }

    fn method(&self) -> (r: &'static str) {
        "aria2.getVersion"
    }

    fn serialize_params(&self, serializer: &mut Vec<Param>) {
        assert(views(serializer@) =~= views(serializer@) + Seq::<ParamView>::empty());
    }

    fn to_params<'a>(self, token: Option<&'a str>) -> (r: Option<Aria2Params<'a, Self>>) {
        Some(Aria2Params::new(token, self))
    }
}

/// Adds a download of one resource, given by the URIs that point to it.
#[derive(Debug)]
pub struct AddUri {
    pub uris: Vec<String>,
    pub options: Option<Aria2Options>,
    pub position: Option<i32>,
}

/// The parameter of an optional value: none where the value is absent.
pub open spec fn optional_param(param: Option<ParamView>) -> Seq<ParamView> {
    match param {
        Some(p) => seq![p],
        None => Seq::empty(),
    }
}

impl AddUri {
    /// The options as a parameter.
    pub open spec fn spec_options(&self) -> Option<ParamView> {
        match self.options {
            Some(options) => Some(ParamView::Options(options@)),
            None => None,
        }
    }

    /// The position as a parameter.
    pub open spec fn spec_position(&self) -> Option<ParamView> {
        match self.position {
            Some(position) => Some(ParamView::Number(position as int)),
            None => None,
        }
    }

    /// A download of the given URIs, with options and a position in the queue.
    pub fn new(uris: Vec<String>, options: Option<Aria2Options>, position: Option<i32>) -> (r: Self)
        ensures
            r.uris == uris,
            r.options == options,
            r.position == position,
    {
        Self::uris(uris).options(options).position(position)
    }

    /// A download of the given URIs, with no options and no position.
    pub fn uris(uris: Vec<String>) -> (r: Self)
        ensures
            r.uris == uris,
            r.options is None,
            r.position is None,
    {
        Self { uris, options: None, position: None }
    }

    /// The same download with these options, or with none.
    pub fn options(self, options: Option<Aria2Options>) -> (r: Self)
        ensures
            r.uris == self.uris,
            r.options == options,
            r.position == self.position,
    {
        let mut call = self;
        call.options = options;
        call
    }

    /// The same download at this position in the queue, or at its end.
    pub fn position(self, position: Option<i32>) -> (r: Self)
        ensures
            r.uris == self.uris,
            r.options == self.options,
            r.position == position,
    {
        let mut call = self;
        call.position = position;
        call
    }
}

impl Call for AddUri {
    open spec fn spec_method(&self) -> Seq<char> {
        "aria2.addUri"@
    }

    open spec fn spec_sends_params(&self) -> bool {
        true
    }

    open spec fn spec_params(&self) -> Seq<ParamView> {
        seq![ParamView::TextList(texts(self.uris@))] + optional_param(self.spec_options())
            + optional_param(self.spec_position())
    }

    fn method(&self) -> (r: &'static str) {
        "aria2.addUri"
    }

    fn serialize_params(&self, serializer: &mut Vec<Param>) {
        push_param(serializer, Param::TextList(copy_texts(&self.uris)));
        if let Some(options) = &self.options {
            push_param(serializer, Param::Options(options.copy()));
        }
        if let Some(position) = self.position {
            push_param(serializer, Param::Number(position));
        }
        assert(views(final(serializer)@) =~= views(old(serializer)@) + self.spec_params());
    }

    fn to_params<'a>(self, token: Option<&'a str>) -> (r: Option<Aria2Params<'a, Self>>) {
        Some(Aria2Params::new(token, self))
    }
}

/// The keys of a query as a parameter: none where the query asks for every key.
pub open spec fn keys_param(keys: Option<Seq<TellStatusField>>) -> Option<ParamView> {
    match keys {
        Some(set) => Some(ParamView::Fields(set)),
        None => None,
    }
}

/// Appends the keys of a query to a list, where the query names any.
fn push_keys(serializer: &mut Vec<Param>, keys: &Option<FieldSet>)
    ensures
        views(final(serializer)@) == views(old(serializer)@) + optional_param(
            keys_param(keys_view(*keys)),
        ),
{
    match copy_keys(keys) {
        Some(list) => {
            push_param(serializer, Param::Fields(list));
            assert(views(final(serializer)@) =~= views(old(serializer)@) + optional_param(
                keys_param(keys_view(*keys)),
            ));
        },
        None => {
            assert(views(final(serializer)@) =~= views(old(serializer)@) + optional_param(
                keys_param(keys_view(*keys)),
            ));
        },
    }
}

/// Asks for the status of one download.
#[derive(Debug)]
pub struct TellStatus {
    pub gid: String,
    pub keys: Option<FieldSet>,
}

impl TellStatus {
    /// The keys that the query asks for; every key where it names none.
    pub open spec fn spec_keys(&self) -> Option<Seq<TellStatusField>> {
        keys_view(self.keys)
    }

    /// A query for every key.
    pub fn new(gid: &str) -> (r: Self)
        ensures
            r.gid@ == gid@,
            r.spec_keys() is None,
    {
        Self { gid: gid.to_owned(), keys: None }
    }

    /// A query for the given keys.
    pub fn new_with_fields(gid: &str, fields: Vec<TellStatusField>) -> (r: Self)
        ensures
            r.gid@ == gid@,
            r.spec_keys() == Some(gathered(fields@)),
    {
        Self::new(gid).fields(Some(fields))
    }

    /// The same query for the keys with the given wire names, or for every
    /// key. A name that is no key's is refused.
    pub fn keys(self, keys: Option<Vec<&str>>) -> (r: Result<Self, &'static str>)
        ensures
            match r {
                Ok(call) => names_valid(keys) && call.spec_keys() == keys_of_names(keys) && call.gid == self.gid,
                Err(message) => !names_valid(keys) && message@ == invalid_field(),
            },
    {
        let mut call = self;
        call.keys = None;
        match replace_names(keys) {
            Ok(set) => {
                call.keys = set;
                Ok(call)
            },
            Err(message) => Err(message),
        }
    }

    /// The same query, asking for the key with the given wire name as well.
    /// A name that is no key's is refused.
    pub fn key(self, key: &str) -> (r: Result<Self, &'static str>)
        ensures
            match r {
                Ok(call) => field_named(key@) is Some && call.spec_keys() == keys_with(
                    self.spec_keys(),
                    field_named(key@).unwrap(),
                ) && call.gid == self.gid,
                Err(message) => field_named(key@) is None && message@ == invalid_field(),
            },
    {
        match TellStatusField::from_name(key) {
            Ok(field) => Ok(self.field(field)),
            Err(message) => Err(message),
        }
    }

    /// The same query, asking for one more key.
    pub fn field(self, field: TellStatusField) -> (r: Self)
        ensures
            r.gid == self.gid,
            r.spec_keys() == keys_with(self.spec_keys(), field),
    {
        let mut call = self;
        let keys = call.keys;
        call.keys = add_field(keys, field);
        call
    }

    /// The same query for the given keys, or for every key.
    pub fn fields(self, fields: Option<Vec<TellStatusField>>) -> (r: Self)
        ensures
            r.gid == self.gid,
            r.spec_keys() == keys_of_fields(fields),
    {
        let mut call = self;
        call.keys = replace_fields(fields);
        call
    }
}

impl Call for TellStatus {
    open spec fn spec_method(&self) -> Seq<char> {
        "aria2.tellStatus"@
    }

    open spec fn spec_sends_params(&self) -> bool {
        true
    }

    open spec fn spec_params(&self) -> Seq<ParamView> {
        seq![ParamView::Text(self.gid@)] + optional_param(keys_param(self.spec_keys()))
    }

    fn method(&self) -> (r: &'static str) {
        "aria2.tellStatus"
    }

    fn serialize_params(&self, serializer: &mut Vec<Param>) {
        push_param(serializer, Param::Text(self.gid.clone()));
        push_keys(serializer, &self.keys);
        assert(views(final(serializer)@) =~= views(old(serializer)@) + self.spec_params());
    }

    fn to_params<'a>(self, token: Option<&'a str>) -> (r: Option<Aria2Params<'a, Self>>) {
        Some(Aria2Params::new(token, self))
    }
}

/// Asks for the status of every active download.
#[derive(Debug)]
pub struct TellActive {
    pub keys: Option<FieldSet>,
}

impl TellActive {
    /// The keys that the query asks for; every key where it names none.
    pub open spec fn spec_keys(&self) -> Option<Seq<TellStatusField>> {
        keys_view(self.keys)
    }

    /// A query for every key.
    pub fn new() -> (r: Self)
        ensures
            r.spec_keys() is None,
    {
        Self { keys: None }
    }

    /// A query for the given keys.
    pub fn new_with_fields(fields: Vec<TellStatusField>) -> (r: Self)
        ensures
            r.spec_keys() == Some(gathered(fields@)),
    {
        Self::new().fields(Some(fields))
    }

    /// The same query for the keys with the given wire names, or for every
    /// key. A name that is no key's is refused.
    pub fn keys(self, keys: Option<Vec<&str>>) -> (r: Result<Self, &'static str>)
        ensures
            match r {
                Ok(call) => names_valid(keys) && call.spec_keys() == keys_of_names(keys),
                Err(message) => !names_valid(keys) && message@ == invalid_field(),
            },
    {
        let mut call = self;
        call.keys = None;
        match replace_names(keys) {
            Ok(set) => {
                call.keys = set;
                Ok(call)
            },
            Err(message) => Err(message),
        }
    }

    /// The same query, asking for the key with the given wire name as well.
    /// A name that is no key's is refused.
    pub fn key(self, key: &str) -> (r: Result<Self, &'static str>)
        ensures
            match r {
                Ok(call) => field_named(key@) is Some && call.spec_keys() == keys_with(
                    self.spec_keys(),
                    field_named(key@).unwrap(),
                ),
                Err(message) => field_named(key@) is None && message@ == invalid_field(),
            },
    {
        match TellStatusField::from_name(key) {
            Ok(field) => Ok(self.field(field)),
            Err(message) => Err(message),
        }
    }

    /// The same query, asking for one more key.
    pub fn field(self, field: TellStatusField) -> (r: Self)
        ensures
            r.spec_keys() == keys_with(self.spec_keys(), field),
    {
        let mut call = self;
        let keys = call.keys;
        call.keys = add_field(keys, field);
        call
    }

    /// The same query for the given keys, or for every key.
    pub fn fields(self, fields: Option<Vec<TellStatusField>>) -> (r: Self)
        ensures
            r.spec_keys() == keys_of_fields(fields),
    {
        let mut call = self;
        call.keys = replace_fields(fields);
        call
    }
}

impl Call for TellActive {
    open spec fn spec_method(&self) -> Seq<char> {
        "aria2.tellActive"@
    }

    open spec fn spec_sends_params(&self) -> bool {
        true
    }

    open spec fn spec_params(&self) -> Seq<ParamView> {
        optional_param(keys_param(self.spec_keys()))
    }

    fn method(&self) -> (r: &'static str) {
        "aria2.tellActive"
    }

    fn serialize_params(&self, serializer: &mut Vec<Param>) {
        push_keys(serializer, &self.keys);
        assert(views(final(serializer)@) =~= views(old(serializer)@) + self.spec_params());
    }

    fn to_params<'a>(self, token: Option<&'a str>) -> (r: Option<Aria2Params<'a, Self>>) {
        Some(Aria2Params::new(token, self))
    }
}

/// Asks for the status of waiting downloads: `num` of them from `offset` on.
/// A negative offset counts from the end of the queue, and the answer is then
/// in reverse order.
#[derive(Debug)]
pub struct TellWaiting {
    pub offset: i32,
    pub num: i32,
    pub keys: Option<FieldSet>,
}

impl TellWaiting {
    /// The keys that the query asks for; every key where it names none.
    pub open spec fn spec_keys(&self) -> Option<Seq<TellStatusField>> {
        keys_view(self.keys)
    }

    /// A query for every key.
    pub fn new(offset: i32, num: i32) -> (r: Self)
        ensures
            r.offset == offset,
            r.num == num,
            r.spec_keys() is None,
    {
        Self { offset, num, keys: None }
    }

    /// A query for the given keys.
    pub fn new_with_fields(offset: i32, num: i32, fields: Vec<TellStatusField>) -> (r: Self)
        ensures
            r.offset == offset,
            r.num == num,
            r.spec_keys() == Some(gathered(fields@)),
    {
        Self::new(offset, num).fields(Some(fields))
    }

    /// The same query for the keys with the given wire names, or for every
    /// key. A name that is no key's is refused.
    pub fn keys(self, keys: Option<Vec<&str>>) -> (r: Result<Self, &'static str>)
        ensures
            match r {
                Ok(call) => names_valid(keys) && call.spec_keys() == keys_of_names(keys) && call.offset == self.offset && call.num == self.num,
                Err(message) => !names_valid(keys) && message@ == invalid_field(),
            },
    {
        let mut call = self;
        call.keys = None;
        match replace_names(keys) {
            Ok(set) => {
                call.keys = set;
                Ok(call)
            },
            Err(message) => Err(message),
        }
    }

    /// The same query, asking for the key with the given wire name as well.
    /// A name that is no key's is refused.
    pub fn key(self, key: &str) -> (r: Result<Self, &'static str>)
        ensures
            match r {
                Ok(call) => field_named(key@) is Some && call.spec_keys() == keys_with(
                    self.spec_keys(),
                    field_named(key@).unwrap(),
                ) && call.offset == self.offset && call.num == self.num,
                Err(message) => field_named(key@) is None && message@ == invalid_field(),
            },
    {
        match TellStatusField::from_name(key) {
            Ok(field) => Ok(self.field(field)),
            Err(message) => Err(message),
        }
    }

    /// The same query, asking for one more key.
    pub fn field(self, field: TellStatusField) -> (r: Self)
        ensures
            r.offset == self.offset,
            r.num == self.num,
            r.spec_keys() == keys_with(self.spec_keys(), field),
    {
        let mut call = self;
        let keys = call.keys;
        call.keys = add_field(keys, field);
        call
    }

    /// The same query for the given keys, or for every key.
    pub fn fields(self, fields: Option<Vec<TellStatusField>>) -> (r: Self)
        ensures
            r.offset == self.offset,
            r.num == self.num,
            r.spec_keys() == keys_of_fields(fields),
    {
        let mut call = self;
        call.keys = replace_fields(fields);
        call
    }
}

impl Call for TellWaiting {
    open spec fn spec_method(&self) -> Seq<char> {
        "aria2.tellWaiting"@
    }

    open spec fn spec_sends_params(&self) -> bool {
        true
    }

    open spec fn spec_params(&self) -> Seq<ParamView> {
        seq![ParamView::Number(self.offset as int), ParamView::Number(self.num as int)] + optional_param(keys_param(self.spec_keys()))
    }

    fn method(&self) -> (r: &'static str) {
        "aria2.tellWaiting"
    }

    fn serialize_params(&self, serializer: &mut Vec<Param>) {
        push_param(serializer, Param::Number(self.offset));
        push_param(serializer, Param::Number(self.num));
        push_keys(serializer, &self.keys);
        assert(views(final(serializer)@) =~= views(old(serializer)@) + self.spec_params());
    }

    fn to_params<'a>(self, token: Option<&'a str>) -> (r: Option<Aria2Params<'a, Self>>) {
        Some(Aria2Params::new(token, self))
    }
}

/// Asks for the status of stopped downloads: `num` of them from `offset` on.
#[derive(Debug)]
pub struct TellStopped {
    pub offset: i32,
    pub num: i32,
    pub keys: Option<FieldSet>,
}

impl TellStopped {
    /// The keys that the query asks for; every key where it names none.
    pub open spec fn spec_keys(&self) -> Option<Seq<TellStatusField>> {
        keys_view(self.keys)
    }

    /// A query for every key.
    pub fn new(offset: i32, num: i32) -> (r: Self)
        ensures
            r.offset == offset,
            r.num == num,
            r.spec_keys() is None,
    {
        Self { offset, num, keys: None }
    }

    /// A query for the given keys.
    pub fn new_with_fields(offset: i32, num: i32, fields: Vec<TellStatusField>) -> (r: Self)
        ensures
            r.offset == offset,
            r.num == num,
            r.spec_keys() == Some(gathered(fields@)),
    {
        Self::new(offset, num).fields(Some(fields))
    }

    /// The same query for the keys with the given wire names, or for every
    /// key. A name that is no key's is refused.
    pub fn keys(self, keys: Option<Vec<&str>>) -> (r: Result<Self, &'static str>)
        ensures
            match r {
                Ok(call) => names_valid(keys) && call.spec_keys() == keys_of_names(keys) && call.offset == self.offset && call.num == self.num,
                Err(message) => !names_valid(keys) && message@ == invalid_field(),
            },
    {
        let mut call = self;
        call.keys = None;
        match replace_names(keys) {
            Ok(set) => {
                call.keys = set;
                Ok(call)
            },
            Err(message) => Err(message),
        }
    }

    /// The same query, asking for the key with the given wire name as well.
    /// A name that is no key's is refused.
    pub fn key(self, key: &str) -> (r: Result<Self, &'static str>)
        ensures
            match r {
                Ok(call) => field_named(key@) is Some && call.spec_keys() == keys_with(
                    self.spec_keys(),
                    field_named(key@).unwrap(),
                ) && call.offset == self.offset && call.num == self.num,
                Err(message) => field_named(key@) is None && message@ == invalid_field(),
            },
    {
        match TellStatusField::from_name(key) {
            Ok(field) => Ok(self.field(field)),
            Err(message) => Err(message),
        }
    }

    /// The same query, asking for one more key.
    pub fn field(self, field: TellStatusField) -> (r: Self)
        ensures
            r.offset == self.offset,
            r.num == self.num,
            r.spec_keys() == keys_with(self.spec_keys(), field),
    {
        let mut call = self;
        let keys = call.keys;
        call.keys = add_field(keys, field);
        call
    }

    /// The same query for the given keys, or for every key.
    pub fn fields(self, fields: Option<Vec<TellStatusField>>) -> (r: Self)
        ensures
            r.offset == self.offset,
            r.num == self.num,
            r.spec_keys() == keys_of_fields(fields),
    {
        let mut call = self;
        call.keys = replace_fields(fields);
        call
    }
}

impl Call for TellStopped {
    open spec fn spec_method(&self) -> Seq<char> {
        "aria2.tellStopped"@
    }

    open spec fn spec_sends_params(&self) -> bool {
        true
    }

    open spec fn spec_params(&self) -> Seq<ParamView> {
        seq![ParamView::Number(self.offset as int), ParamView::Number(self.num as int)] + optional_param(keys_param(self.spec_keys()))
    }

    fn method(&self) -> (r: &'static str) {
        "aria2.tellStopped"
    }

    fn serialize_params(&self, serializer: &mut Vec<Param>) {
        push_param(serializer, Param::Number(self.offset));
        push_param(serializer, Param::Number(self.num));
        push_keys(serializer, &self.keys);
        assert(views(final(serializer)@) =~= views(old(serializer)@) + self.spec_params());
    }

    fn to_params<'a>(self, token: Option<&'a str>) -> (r: Option<Aria2Params<'a, Self>>) {
        Some(Aria2Params::new(token, self))
    }
}

/// Asks for the URIs of a download.
#[derive(Debug)]
pub struct GetUris {
    pub gid: String,
}

impl GetUris {
    /// The query for the download with this GID.
    pub fn new(gid: &str) -> (r: Self)
        ensures
            r.gid@ == gid@,
    {
        Self { gid: gid.to_owned() }
    }
}

impl Call for GetUris {
    open spec fn spec_method(&self) -> Seq<char> {
        "aria2.getUris"@
    }

    open spec fn spec_sends_params(&self) -> bool {
        true
    }

    open spec fn spec_params(&self) -> Seq<ParamView> {
        seq![ParamView::Text(self.gid@)]
    }

    fn method(&self) -> (r: &'static str) {
        "aria2.getUris"
    }

    fn serialize_params(&self, serializer: &mut Vec<Param>) {
        push_param(serializer, Param::Text(self.gid.clone()));
        assert(views(final(serializer)@) =~= views(old(serializer)@) + self.spec_params());
    }

    fn to_params<'a>(self, token: Option<&'a str>) -> (r: Option<Aria2Params<'a, Self>>) {
        Some(Aria2Params::new(token, self))
    }
}

/// Asks for the files of a download.
#[derive(Debug)]
pub struct GetFiles {
    pub gid: String,
}

impl GetFiles {
    /// The query for the download with this GID.
    pub fn new(gid: &str) -> (r: Self)
        ensures
            r.gid@ == gid@,
    {
        Self { gid: gid.to_owned() }
    }
}

impl Call for GetFiles {
    open spec fn spec_method(&self) -> Seq<char> {
        "aria2.getFiles"@
    }

    open spec fn spec_sends_params(&self) -> bool {
        true
    }

    open spec fn spec_params(&self) -> Seq<ParamView> {
        seq![ParamView::Text(self.gid@)]
    }

    fn method(&self) -> (r: &'static str) {
        "aria2.getFiles"
    }

    fn serialize_params(&self, serializer: &mut Vec<Param>) {
        push_param(serializer, Param::Text(self.gid.clone()));
        assert(views(final(serializer)@) =~= views(old(serializer)@) + self.spec_params());
    }

    fn to_params<'a>(self, token: Option<&'a str>) -> (r: Option<Aria2Params<'a, Self>>) {
        Some(Aria2Params::new(token, self))
    }
}

/// The GID that the daemon gave a new download.
#[derive(Debug, Clone)]
pub struct GidReply(pub String);

impl From<GidReply> for String {
    fn from(gid: GidReply) -> (r: Self) {
        gid.0
    }
}

impl vstd::std_specs::convert::FromSpecImpl<GidReply> for String {
    open spec fn obeys_from_spec() -> bool {
        true
    }

    open spec fn from_spec(gid: GidReply) -> Self {
        gid.0
    }
}

/// The daemon's version and the features it was built with.
#[derive(Debug, Clone)]
pub struct VersionReply {
    pub version: String,
    pub enabled_features: Vec<String>,
}

/// The state of a download.
#[derive(Debug, Clone, Copy, PartialEq)]
pub enum TaskStatus {
    Active,
    Waiting,
    Paused,
    Error,
    Complete,
    Removed,
}

/// The status of a download: the keys that were asked for.
#[derive(Debug, Clone)]
pub struct TellStatusReply {
    pub gid: Option<String>,
    pub status: Option<TaskStatus>,
    pub total_length: Option<u64>,
    pub completed_length: Option<u64>,
    pub upload_length: Option<u64>,
    pub bitfield: Option<String>,
    pub download_speed: Option<u64>,
    pub upload_speed: Option<u64>,
    pub piece_length: Option<u64>,
    pub num_pieces: Option<u64>,
    pub connections: Option<u64>,
    pub dir: Option<String>,
    pub files: Option<Vec<TellStatusReplyFile>>,
}

/// One file of a download.
#[derive(Debug, Clone)]
pub struct TellStatusReplyFile {
    pub index: String,
    pub length: u64,
    pub completed_length: u64,
    pub path: String,
    pub selected: bool,
    pub uris: Vec<TellStatusReplyUri>,
}

/// Whether a URI is in use.
#[derive(Debug, Clone, Copy, PartialEq)]
pub enum URIStatus {
    Used,
    Waiting,
}

/// One URI of a file.
#[derive(Debug, Clone)]
pub struct TellStatusReplyUri {
    pub status: URIStatus,
    pub uri: String,
}

} // verus!
