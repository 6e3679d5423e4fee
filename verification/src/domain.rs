use vstd::prelude::*;
use vstd::utf8::encode_utf8;
use crate::text::{append_bytes, bytes_eq, str_eq};

verus! {

/// Why a stored token could not be read back as one of the closed enumerations.
#[derive(Debug, Clone, Copy, PartialEq, Eq, Structural)]
pub enum DecodeError {
    UnknownUserStatus,
    UnknownCampus,
    UnknownListingType,
}

impl DecodeError {
    /// The message reported for this error.
    pub open spec fn message_text(self) -> Seq<char> {
        match self {
            DecodeError::UnknownUserStatus => "Unknown user status"@,
            DecodeError::UnknownCampus => "Unknown campus"@,
            DecodeError::UnknownListingType => "Unknown listing type"@,
        }
    }

    /// The message reported for this error.
    pub fn message(&self) -> (text: &'static str)
        ensures
            text@ == self.message_text(),
    {
        match self {
            DecodeError::UnknownUserStatus => "Unknown user status",
            DecodeError::UnknownCampus => "Unknown campus",
            DecodeError::UnknownListingType => "Unknown listing type",
        }
    }
}

/// Lifecycle state of an account. An account starts as `PENDING` and becomes
/// `CONFIRMED` once its confirmation code is redeemed.
#[allow(non_camel_case_types)]
#[derive(Debug, Clone, Copy, PartialEq, Eq, Structural)]
pub enum AccountStatus {
    PENDING,
    CONFIRMED,
    DISABLED,
}

impl AccountStatus {
    /// The stable storage token of this status.
    pub open spec fn token(self) -> Seq<char> {
        match self {
            AccountStatus::PENDING => "PENDING"@,
            AccountStatus::CONFIRMED => "CONFIRMED"@,
            AccountStatus::DISABLED => "DISABLED"@,
        }
    }

    /// The bytes under which this status is stored.
    pub open spec fn sql_bytes(self) -> Seq<u8> {
        encode_utf8(self.token())
    }

    /// What stored bytes mean: the status whose token they spell, if any.
    pub open spec fn decode(bytes: Seq<u8>) -> Result<AccountStatus, DecodeError> {
        if bytes == AccountStatus::PENDING.sql_bytes() {
            Ok(AccountStatus::PENDING)
        } else if bytes == AccountStatus::CONFIRMED.sql_bytes() {
            Ok(AccountStatus::CONFIRMED)
        } else if bytes == AccountStatus::DISABLED.sql_bytes() {
            Ok(AccountStatus::DISABLED)
        } else {
            Err(DecodeError::UnknownUserStatus)
        }
    }

    /// The stable storage token of this value.
    pub fn token_str(&self) -> (text: &'static str)
        ensures
            text@ == self.token(),
    {
        match self {
            AccountStatus::PENDING => "PENDING",
            AccountStatus::CONFIRMED => "CONFIRMED",
            AccountStatus::DISABLED => "DISABLED",
        }
    }

    /// Writes the storage token of this status to `out`.
    pub fn to_sql(&self, out: &mut Vec<u8>)
        ensures
            final(out)@ == old(out)@ + self.sql_bytes(),
    {
        append_bytes(out, self.token_str().as_bytes());
    }

    /// Reads a status back from its storage token.
    pub fn from_sql(bytes: &[u8]) -> (decoded: Result<AccountStatus, DecodeError>)
        ensures
            decoded == AccountStatus::decode(bytes@),
    {
        if bytes_eq(bytes, AccountStatus::PENDING.token_str().as_bytes()) {
            Ok(AccountStatus::PENDING)
        } else if bytes_eq(bytes, AccountStatus::CONFIRMED.token_str().as_bytes()) {
            Ok(AccountStatus::CONFIRMED)
        } else if bytes_eq(bytes, AccountStatus::DISABLED.token_str().as_bytes()) {
            Ok(AccountStatus::DISABLED)
        } else {
            Err(DecodeError::UnknownUserStatus)
        }
    }
}

/// The campus at which a listed item is offered.
#[derive(Debug, Clone, Copy, PartialEq, Eq, Structural)]
pub enum Campus {
    DarcyRibeiro,
    Planaltina,
    Ceilandia,
    Gama,
}

impl Campus {
    /// The stable storage token of this campus.
    pub open spec fn token(self) -> Seq<char> {
        match self {
            Campus::DarcyRibeiro => "DARCY"@,
            Campus::Planaltina => "PLANALTINA"@,
            Campus::Ceilandia => "CEILANDIA"@,
            Campus::Gama => "GAMA"@,
        }
    }

    /// The text shown to people for this campus.
    pub open spec fn label_text(self) -> Seq<char> {
        match self {
            Campus::DarcyRibeiro => "Darcy Ribeiro"@,
            Campus::Planaltina => "Planaltina"@,
            Campus::Ceilandia => "Ceilândia"@,
            Campus::Gama => "Gama"@,
        }
    }

    /// The bytes under which this campus is stored.
    pub open spec fn sql_bytes(self) -> Seq<u8> {
        encode_utf8(self.token())
    }

    /// What stored bytes mean: the campus whose token they spell, if any.
    pub open spec fn decode(bytes: Seq<u8>) -> Result<Campus, DecodeError> {
        if bytes == Campus::DarcyRibeiro.sql_bytes() {
            Ok(Campus::DarcyRibeiro)
        } else if bytes == Campus::Planaltina.sql_bytes() {
            Ok(Campus::Planaltina)
        } else if bytes == Campus::Ceilandia.sql_bytes() {
            Ok(Campus::Ceilandia)
        } else if bytes == Campus::Gama.sql_bytes() {
            Ok(Campus::Gama)
        } else {
            Err(DecodeError::UnknownCampus)
        }
    }

    /// What a submitted label means: the campus shown under it, if any.
    pub open spec fn parse(label: Seq<char>) -> Option<Campus> {
        if label == Campus::DarcyRibeiro.label_text() {
            Some(Campus::DarcyRibeiro)
        } else if label == Campus::Planaltina.label_text() {
            Some(Campus::Planaltina)
        } else if label == Campus::Ceilandia.label_text() {
            Some(Campus::Ceilandia)
        } else if label == Campus::Gama.label_text() {
            Some(Campus::Gama)
        } else {
            None
        }
    }

    /// The stable storage token of this value.
    pub fn token_str(&self) -> (text: &'static str)
        ensures
            text@ == self.token(),
    {
        match self {
            Campus::DarcyRibeiro => "DARCY",
            Campus::Planaltina => "PLANALTINA",
            Campus::Ceilandia => "CEILANDIA",
            Campus::Gama => "GAMA",
        }
    }

    /// The text shown to people for this campus.
    pub fn label(&self) -> (text: &'static str)
        ensures
            text@ == self.label_text(),
    {
        match self {
            Campus::DarcyRibeiro => "Darcy Ribeiro",
            Campus::Planaltina => "Planaltina",
            Campus::Ceilandia => "Ceilândia",
            Campus::Gama => "Gama",
        }
    }

    /// Reads a campus from the label a form submits; an unknown label is no campus.
    pub fn from_label(label: &str) -> (parsed: Option<Campus>)
        ensures
            parsed == Campus::parse(label@),
    {
        if str_eq(label, Campus::DarcyRibeiro.label()) {
            Some(Campus::DarcyRibeiro)
        } else if str_eq(label, Campus::Planaltina.label()) {
            Some(Campus::Planaltina)
        } else if str_eq(label, Campus::Ceilandia.label()) {
            Some(Campus::Ceilandia)
        } else if str_eq(label, Campus::Gama.label()) {
            Some(Campus::Gama)
        } else {
            None
        }
    }

    /// Writes the storage token of this campus to `out`.
    pub fn to_sql(&self, out: &mut Vec<u8>)
        ensures
            final(out)@ == old(out)@ + self.sql_bytes(),
    {
        append_bytes(out, self.token_str().as_bytes());
    }

    /// Reads a campus back from its storage token.
    pub fn from_sql(bytes: &[u8]) -> (decoded: Result<Campus, DecodeError>)
        ensures
            decoded == Campus::decode(bytes@),
    {
        if bytes_eq(bytes, Campus::DarcyRibeiro.token_str().as_bytes()) {
            Ok(Campus::DarcyRibeiro)
        } else if bytes_eq(bytes, Campus::Planaltina.token_str().as_bytes()) {
            Ok(Campus::Planaltina)
        } else if bytes_eq(bytes, Campus::Ceilandia.token_str().as_bytes()) {
            Ok(Campus::Ceilandia)
        } else if bytes_eq(bytes, Campus::Gama.token_str().as_bytes()) {
            Ok(Campus::Gama)
        } else {
            Err(DecodeError::UnknownCampus)
        }
    }
}

/// What kind of offer or request a listing is.
#[derive(Debug, Clone, Copy, PartialEq, Eq, Structural)]
pub enum Type {
    Donation,
    Loan,
    Exchange,
    Request,
}

impl Type {
    /// The stable storage token of this kind.
    pub open spec fn token(self) -> Seq<char> {
        match self {
            Type::Donation => "DONATION"@,
            Type::Loan => "LOAN"@,
            Type::Exchange => "EXCHANGE"@,
            Type::Request => "REQUEST"@,
        }
    }

    /// The text shown to people for this kind.
    pub open spec fn label_text(self) -> Seq<char> {
        match self {
            Type::Donation => "Doação"@,
            Type::Loan => "Empréstimo"@,
            Type::Exchange => "Troca"@,
            Type::Request => "Pedido"@,
        }
    }

    /// The bytes under which this kind is stored.
    pub open spec fn sql_bytes(self) -> Seq<u8> {
        encode_utf8(self.token())
    }

    /// What stored bytes mean: the kind whose token they spell, if any.
    pub open spec fn decode(bytes: Seq<u8>) -> Result<Type, DecodeError> {
        if bytes == Type::Donation.sql_bytes() {
            Ok(Type::Donation)
        } else if bytes == Type::Loan.sql_bytes() {
            Ok(Type::Loan)
        } else if bytes == Type::Exchange.sql_bytes() {
            Ok(Type::Exchange)
        } else if bytes == Type::Request.sql_bytes() {
            Ok(Type::Request)
        } else {
            Err(DecodeError::UnknownListingType)
        }
    }

    /// What a submitted label means: the kind shown under it, if any.
    pub open spec fn parse(label: Seq<char>) -> Option<Type> {
        if label == Type::Donation.label_text() {
            Some(Type::Donation)
        } else if label == Type::Loan.label_text() {
            Some(Type::Loan)
        } else if label == Type::Exchange.label_text() {
            Some(Type::Exchange)
        } else if label == Type::Request.label_text() {
            Some(Type::Request)
        } else {
            None
        }
    }

    /// The stable storage token of this value.
    pub fn token_str(&self) -> (text: &'static str)
        ensures
            text@ == self.token(),
    {
        match self {
            Type::Donation => "DONATION",
            Type::Loan => "LOAN",
            Type::Exchange => "EXCHANGE",
            Type::Request => "REQUEST",
        }
    }

    /// The text shown to people for this kind.
    pub fn label(&self) -> (text: &'static str)
        ensures
            text@ == self.label_text(),
    {
        match self {
            Type::Donation => "Doação",
            Type::Loan => "Empréstimo",
            Type::Exchange => "Troca",
            Type::Request => "Pedido",
        }
    }

    /// Reads a kind from the label a form submits; an unknown label is no kind.
    pub fn from_label(label: &str) -> (parsed: Option<Type>)
        ensures
            parsed == Type::parse(label@),
    {
        if str_eq(label, Type::Donation.label()) {
            Some(Type::Donation)
        } else if str_eq(label, Type::Loan.label()) {
            Some(Type::Loan)
        } else if str_eq(label, Type::Exchange.label()) {
            Some(Type::Exchange)
        } else if str_eq(label, Type::Request.label()) {
            Some(Type::Request)
        } else {
            None
        }
    }

    /// Writes the storage token of this kind to `out`.
    pub fn to_sql(&self, out: &mut Vec<u8>)
        ensures
            final(out)@ == old(out)@ + self.sql_bytes(),
    {
        append_bytes(out, self.token_str().as_bytes());
    }

    /// Reads a kind back from its storage token.
    pub fn from_sql(bytes: &[u8]) -> (decoded: Result<Type, DecodeError>)
        ensures
            decoded == Type::decode(bytes@),
    {
        if bytes_eq(bytes, Type::Donation.token_str().as_bytes()) {
            Ok(Type::Donation)
        } else if bytes_eq(bytes, Type::Loan.token_str().as_bytes()) {
            Ok(Type::Loan)
        } else if bytes_eq(bytes, Type::Exchange.token_str().as_bytes()) {
            Ok(Type::Exchange)
        } else if bytes_eq(bytes, Type::Request.token_str().as_bytes()) {
            Ok(Type::Request)
        } else {
            Err(DecodeError::UnknownListingType)
        }
    }
}

/// Two texts with the same encoding are the same text.
pub proof fn lemma_encoding_is_injective(a: Seq<char>, b: Seq<char>)
    requires
        encode_utf8(a) == encode_utf8(b),
    ensures
        a == b,
{
    vstd::utf8::encode_utf8_decode_utf8(a);
    vstd::utf8::encode_utf8_decode_utf8(b);
}

/// Distinct statuses have distinct storage tokens.
pub proof fn lemma_status_tokens_differ(a: AccountStatus, b: AccountStatus)
    requires
        a != b,
    ensures
        a.token() != b.token(),
        a.sql_bytes() != b.sql_bytes(),
{
    reveal_strlit("PENDING");
    reveal_strlit("CONFIRMED");
    reveal_strlit("DISABLED");
    assert(a.token().len() != b.token().len());
    if a.sql_bytes() == b.sql_bytes() {
        lemma_encoding_is_injective(a.token(), b.token());
    }
}

/// A status written to storage is read back as itself, and bytes that read as
/// a status are exactly the bytes that status is stored under.
pub proof fn lemma_status_round_trip(status: AccountStatus, bytes: Seq<u8>)
    ensures
        AccountStatus::decode(status.sql_bytes()) == Ok::<AccountStatus, DecodeError>(status),
        AccountStatus::decode(bytes) == Ok::<AccountStatus, DecodeError>(status)
            <==> bytes == status.sql_bytes(),
{
    if status != AccountStatus::PENDING {
        lemma_status_tokens_differ(status, AccountStatus::PENDING);
    }
    if status != AccountStatus::CONFIRMED {
        lemma_status_tokens_differ(status, AccountStatus::CONFIRMED);
    }
    if status != AccountStatus::DISABLED {
        lemma_status_tokens_differ(status, AccountStatus::DISABLED);
    }
}

/// Distinct campuses have distinct storage tokens and distinct labels.
pub proof fn lemma_campus_tokens_differ(a: Campus, b: Campus)
    requires
        a != b,
    ensures
        a.token() != b.token(),
        a.sql_bytes() != b.sql_bytes(),
        a.label_text() != b.label_text(),
{
    reveal_strlit("DARCY");
    reveal_strlit("PLANALTINA");
    reveal_strlit("CEILANDIA");
    reveal_strlit("GAMA");
    reveal_strlit("Darcy Ribeiro");
    reveal_strlit("Planaltina");
    reveal_strlit("Ceilândia");
    reveal_strlit("Gama");
    assert(a.token().len() != b.token().len());
    assert(a.label_text().len() != b.label_text().len());
    if a.sql_bytes() == b.sql_bytes() {
        lemma_encoding_is_injective(a.token(), b.token());
    }
}

/// A campus written to storage is read back as itself, bytes that read as a
/// campus are exactly its stored bytes, and a label names the campus shown
/// under it and no other.
pub proof fn lemma_campus_round_trip(campus: Campus, bytes: Seq<u8>, label: Seq<char>)
    ensures
        Campus::decode(campus.sql_bytes()) == Ok::<Campus, DecodeError>(campus),
        Campus::decode(bytes) == Ok::<Campus, DecodeError>(campus) <==> bytes
            == campus.sql_bytes(),
        Campus::parse(campus.label_text()) == Some(campus),
        Campus::parse(label) == Some(campus) <==> label == campus.label_text(),
{
    if campus != Campus::DarcyRibeiro {
        lemma_campus_tokens_differ(campus, Campus::DarcyRibeiro);
    }
    if campus != Campus::Planaltina {
        lemma_campus_tokens_differ(campus, Campus::Planaltina);
    }
    if campus != Campus::Ceilandia {
        lemma_campus_tokens_differ(campus, Campus::Ceilandia);
    }
    if campus != Campus::Gama {
        lemma_campus_tokens_differ(campus, Campus::Gama);
    }
}

/// Distinct listing kinds have distinct storage tokens and distinct labels.
pub proof fn lemma_type_tokens_differ(a: Type, b: Type)
    requires
        a != b,
    ensures
        a.token() != b.token(),
        a.sql_bytes() != b.sql_bytes(),
        a.label_text() != b.label_text(),
{
    reveal_strlit("DONATION");
    reveal_strlit("LOAN");
    reveal_strlit("EXCHANGE");
    reveal_strlit("REQUEST");
    reveal_strlit("Doação");
    reveal_strlit("Empréstimo");
    reveal_strlit("Troca");
    reveal_strlit("Pedido");
    assert(a.token().len() != b.token().len() || a.token()[0] != b.token()[0]);
    assert(a.label_text().len() != b.label_text().len() || a.label_text()[0]
        != b.label_text()[0]);
    if a.sql_bytes() == b.sql_bytes() {
        lemma_encoding_is_injective(a.token(), b.token());
    }
}

/// A listing kind written to storage is read back as itself, bytes that read
/// as a kind are exactly its stored bytes, and a label names the kind shown
/// under it and no other.
pub proof fn lemma_type_round_trip(kind: Type, bytes: Seq<u8>, label: Seq<char>)
    ensures
        Type::decode(kind.sql_bytes()) == Ok::<Type, DecodeError>(kind),
        Type::decode(bytes) == Ok::<Type, DecodeError>(kind) <==> bytes == kind.sql_bytes(),
        Type::parse(kind.label_text()) == Some(kind),
        Type::parse(label) == Some(kind) <==> label == kind.label_text(),
{
    if kind != Type::Donation {
        lemma_type_tokens_differ(kind, Type::Donation);
    }
    if kind != Type::Loan {
        lemma_type_tokens_differ(kind, Type::Loan);
    }
    if kind != Type::Exchange {
        lemma_type_tokens_differ(kind, Type::Exchange);
    }
    if kind != Type::Request {
        lemma_type_tokens_differ(kind, Type::Request);
    }
}

} // verus!
