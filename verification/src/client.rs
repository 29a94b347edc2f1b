//! The outbound side: the calls that add an annotation to a chat or send a
//! confirmation message, and what the platform's answer to such a call means.
//!
//! Nothing here touches the network. A call is prepared as a value, the host
//! sends it, and the host's account of how that went is turned into the
//! result that the caller of the operation gets.

use crate::error::ChatGuruError;
use crate::text::{chars_of, contains, ends_with, has_substring, matches_at, occurs_at};
use vstd::prelude::*;
use vstd::string::StringSliceAdditionalSpecFns;

verus! {

/// The seconds after which a call that found no answer counts as failed.
pub const CALL_TIMEOUT_SECONDS: u64 = 10;

/// The seconds after which a connection that was not made counts as failed.
pub const CONNECT_TIMEOUT_SECONDS: u64 = 3;

/// The phone identifier that a call carries where the caller names none.
pub const DEFAULT_PHONE_ID: &'static str = "62558780e2923cc4705beee1";

/// What an outbound call asks the platform to do.
#[derive(Clone, Copy, Debug, PartialEq, Eq, Structural)]
pub enum Operation {
    /// Attach a note to a chat, for the agents to see.
    AddAnnotation,
    /// Send a message to the contact.
    SendMessage,
}

impl Operation {
    /// The action code that the call carries.
    pub open spec fn action(self) -> Seq<char> {
        match self {
            Operation::AddAnnotation => "note_add"@,
            Operation::SendMessage => "message_send"@,
        }
    }

    /// The name of the query parameter that carries the text.
    pub open spec fn text_parameter(self) -> Seq<char> {
        match self {
            Operation::AddAnnotation => "note_text"@,
            Operation::SendMessage => "text"@,
        }
    }

    /// What the description of a transport failure starts with.
    pub open spec fn failure_prefix(self) -> Seq<char> {
        match self {
            Operation::AddAnnotation => "Failed to add annotation: "@,
            Operation::SendMessage => "Failed to send message: "@,
        }
    }

    /// The words by which the platform says that the chat of the call does not
    /// exist.
    pub open spec fn missing_chat_notice(self) -> Seq<char> {
        match self {
            Operation::AddAnnotation => "Chat não encontrado"@,
            Operation::SendMessage => "Chat não existe"@,
        }
    }
}

/// The beginning that the two notices of a missing chat share, up to their
/// first letter outside ASCII.
pub open spec fn missing_chat_stub() -> Seq<char> {
    "Chat n"@
}

/// Whether the body of an answer says that the chat of the call does not exist.
pub open spec fn reports_missing_chat(operation: Operation, body: Seq<char>) -> bool {
    contains(body, operation.missing_chat_notice()) || contains(body, missing_chat_stub())
}

/// Whether an HTTP status says that the platform accepted the call.
pub open spec fn is_accepted(status: u16) -> bool {
    (200 <= status && status < 300) || status == 201
}

/// What the platform's answer to a call amounts to.
#[derive(Clone, Copy, Debug, PartialEq, Eq, Structural)]
pub enum Disposition {
    /// The platform accepted the call.
    Accepted,
    /// The platform knows no chat for the recipient: expected for contacts
    /// without an active conversation, worth a warning.
    ChatMissing,
    /// The platform refused the call for another reason: worth an error in the
    /// log, and still no failure of the caller.
    Refused,
}

/// How loudly the host should log a disposition.
#[derive(Clone, Copy, Debug, PartialEq, Eq, Structural)]
pub enum Severity {
    Info,
    Warning,
    Error,
}

impl Disposition {
    /// The severity at which the host logs the disposition.
    pub fn severity(&self) -> (severity: Severity)
        ensures
            severity == match *self {
                Disposition::Accepted => Severity::Info,
                Disposition::ChatMissing => Severity::Warning,
                Disposition::Refused => Severity::Error,
            },
    {
        match self {
            Disposition::Accepted => Severity::Info,
            Disposition::ChatMissing => Severity::Warning,
            Disposition::Refused => Severity::Error,
        }
    }
}

/// What an answer with the given status and body amounts to.
pub open spec fn classified(operation: Operation, status: u16, body: Seq<char>) -> Disposition {
    if is_accepted(status) {
        Disposition::Accepted
    } else if reports_missing_chat(operation, body) {
        Disposition::ChatMissing
    } else {
        Disposition::Refused
    }
}

/// Either notice of a missing chat begins with the stub, so a body reports a
/// missing chat exactly where it holds the stub.
pub proof fn lemma_missing_chat_by_stub(operation: Operation, body: Seq<char>)
    ensures
        reports_missing_chat(operation, body) <==> contains(body, missing_chat_stub()),
{
    let notice = operation.missing_chat_notice();
    let stub = missing_chat_stub();
    reveal_strlit("Chat não encontrado");
    reveal_strlit("Chat não existe");
    reveal_strlit("Chat n");
    assert(notice.len() >= stub.len() && notice.subrange(0, stub.len() as int) =~= stub);
    if contains(body, notice) {
        let at = choose|at: int| occurs_at(body, notice, at);
        assert(body.subrange(at, at + stub.len()) =~= body.subrange(at, at + notice.len()).subrange(
            0,
            stub.len() as int,
        ));
        assert(occurs_at(body, stub, at));
    }
}

/// An answer that the platform did not accept and that holds the notice of a
/// missing chat is worth a warning; one that does not even hold the stub is
/// worth an error.
pub proof fn lemma_refusals(operation: Operation, status: u16, body: Seq<char>)
    requires
        !is_accepted(status),
    ensures
        contains(body, operation.missing_chat_notice()) ==> classified(operation, status, body)
            == Disposition::ChatMissing,
        !contains(body, missing_chat_stub()) ==> classified(operation, status, body)
            == Disposition::Refused,
{
    lemma_missing_chat_by_stub(operation, body);
}

/// Classifies the platform's answer to a call of the given operation.
pub fn classify(operation: Operation, status: u16, body: &str) -> (disposition: Disposition)
    ensures
        disposition == classified(operation, status, body@),
{
    if (200 <= status && status < 300) || status == 201 {
        return Disposition::Accepted;
    }
    let text = chars_of(body);
    let notice = match operation {
        Operation::AddAnnotation => chars_of("Chat não encontrado"),
        Operation::SendMessage => chars_of("Chat não existe"),
    };
    if has_substring(&text, &notice) {
        return Disposition::ChatMissing;
    }
    let stub = chars_of("Chat n");
    if has_substring(&text, &stub) {
        Disposition::ChatMissing
    } else {
        Disposition::Refused
    }
}

/// How the sending of a call ended, as the host reports it.
#[derive(Debug)]
pub enum Reply {
    /// The platform answered.
    Answer { status: u16, body: String },
    /// No answer came: the connection failed or timed out.
    Failure { reason: String },
}

/// Whether a character is one of the ten digits.
pub open spec fn is_digit(c: char) -> bool {
    '0' <= c && c <= '9'
}

/// The digits of a text, in order, without the rest.
pub open spec fn digits_of(text: Seq<char>) -> Seq<char> {
    text.filter(|c: char| is_digit(c))
}

/// A phone number as the platform wants it: every character that is no digit
/// is taken out.
pub fn clean_phone(phone_number: &str) -> (clean: String)
    ensures
        clean@ == digits_of(phone_number@),
{
    let mut clean = String::new();
    for c in it: phone_number.chars()
        invariant
            it.seq() == phone_number@,
            clean@ == digits_of(it.seq().take(it.index() as int)),
    {
        proof {
            reveal(Seq::filter);
            let upto = it.seq().take(it.index() + 1);
            assert(upto.drop_last() =~= it.seq().take(it.index() as int));
            assert(upto.last() == c);
        }
        if '0' <= c && c <= '9' {
            clean.push(c);
        }
    }
    proof {
        reveal(Seq::filter);
        assert(phone_number@.take(phone_number@.len() as int) =~= phone_number@);
    }
    clean
}

/// What is left of a phone number holds digits only, and a number that holds
/// digits only is left as it is.
pub proof fn lemma_digits_only(text: Seq<char>)
    ensures
        forall|i: int| 0 <= i < digits_of(text).len() ==> is_digit(#[trigger] digits_of(text)[i]),
        (forall|i: int| 0 <= i < text.len() ==> is_digit(#[trigger] text[i])) ==> digits_of(text)
            == text,
        digits_of(digits_of(text)) == digits_of(text),
    decreases text.len(),
{
    reveal(Seq::filter);
    if text.len() > 0 {
        lemma_digits_only(text.drop_last());
    }
    if forall|i: int| 0 <= i < text.len() ==> is_digit(#[trigger] text[i]) {
        lemma_digits_unchanged(text);
    }
    lemma_digits_unchanged(digits_of(text));
}

/// A text that holds digits only is its own digits.
proof fn lemma_digits_unchanged(text: Seq<char>)
    requires
        forall|i: int| 0 <= i < text.len() ==> is_digit(#[trigger] text[i]),
    ensures
        digits_of(text) == text,
    decreases text.len(),
{
    reveal(Seq::filter);
    if text.len() > 0 {
        let before = text.drop_last();
        assert forall|i: int| 0 <= i < before.len() implies is_digit(#[trigger] before[i]) by {
            assert(before[i] == text[i]);
        }
        lemma_digits_unchanged(before);
        assert(digits_of(text) =~= text);
    }
}

/// The path under which the platform serves its API.
pub open spec fn api_path() -> Seq<char> {
    seq!['/', 'a', 'p', 'i', '/', 'v', '1']
}

/// An endpoint without what normalization takes off its end: every trailing
/// separator and every trailing API path.
pub open spec fn endpoint_stem(endpoint: Seq<char>) -> Seq<char>
    decreases endpoint.len(),
{
    if endpoint.len() > 0 && endpoint.last() == '/' {
        endpoint_stem(endpoint.drop_last())
    } else if ends_with(endpoint, api_path()) {
        endpoint_stem(endpoint.take(endpoint.len() - api_path().len()))
    } else {
        endpoint
    }
}

/// The address that calls go to: the stem of the configured endpoint, then
/// the API path, once.
pub open spec fn normalized_endpoint(endpoint: Seq<char>) -> Seq<char> {
    endpoint_stem(endpoint) + api_path()
}

/// The address that calls go to, for a configured endpoint that may or may not
/// name the API path already, with or without trailing separators.
pub fn normalize_endpoint(endpoint: &str) -> (address: String)
    ensures
        address@ == normalized_endpoint(endpoint@),
{
    let chars = chars_of(endpoint);
    let path = chars_of("/api/v1");
    proof {
        reveal_strlit("/api/v1");
        assert(path@ =~= api_path());
    }
    let mut end: usize = chars.len();
    assert(chars@.take(end as int) =~= chars@);
    loop
        invariant
            end <= chars.len(),
            path@ == api_path(),
            endpoint_stem(chars@.take(end as int)) == endpoint_stem(chars@),
        ensures
            end <= chars.len(),
            endpoint_stem(chars@) == chars@.take(end as int),
        decreases end,
    {
        let ghost kept = chars@.take(end as int);
        if end > 0 && chars[end - 1] == '/' {
            assert(kept.drop_last() =~= chars@.take(end - 1));
            end -= 1;
        } else if end >= 7 && matches_at(&chars, &path, end - 7) {
            assert(kept.subrange(end - 7, end as int) =~= chars@.subrange(end - 7, end as int));
            assert(kept.take(end - 7) =~= chars@.take(end - 7));
            end -= 7;
        } else {
            proof {
                if end >= 7 {
                    assert(kept.subrange(end - 7, end as int) =~= chars@.subrange(
                        end - 7,
                        end as int,
                    ));
                }
            }
            break ;
        }
    }
    let mut address = String::new();
    let mut i: usize = 0;
    while i < end
        invariant
            i <= end <= chars.len(),
            address@ == chars@.take(i as int),
        decreases end - i,
    {
        address.push(chars[i]);
        assert(chars@.take(i + 1) =~= chars@.take(i as int).push(chars@[i as int]));
        i += 1;
    }
    address.append("/api/v1");
    proof {
        reveal_strlit("/api/v1");
        assert("/api/v1"@ =~= api_path());
    }
    address
}

/// A trailing separator does not change where the calls go.
pub proof fn lemma_separator_ignored(endpoint: Seq<char>)
    ensures
        normalized_endpoint(endpoint.push('/')) == normalized_endpoint(endpoint),
{
    assert(endpoint.push('/').drop_last() =~= endpoint);
}

/// An endpoint that names the API path already goes where the endpoint
/// without it goes.
pub proof fn lemma_api_path_ignored(endpoint: Seq<char>)
    ensures
        normalized_endpoint(endpoint + api_path()) == normalized_endpoint(endpoint),
{
    let longer = endpoint + api_path();
    assert(longer.last() == '1');
    assert(longer.subrange(longer.len() - api_path().len(), longer.len() as int) =~= api_path());
    assert(longer.take(longer.len() - api_path().len()) =~= endpoint);
}

/// The stem is the beginning of the endpoint, and ends neither in a separator
/// nor in the API path.
pub proof fn lemma_stem_is_bare(endpoint: Seq<char>)
    ensures
        endpoint_stem(endpoint).len() <= endpoint.len(),
        endpoint_stem(endpoint) == endpoint.take(endpoint_stem(endpoint).len() as int),
        endpoint_stem(endpoint).len() > 0 ==> endpoint_stem(endpoint).last() != '/',
        !ends_with(endpoint_stem(endpoint), api_path()),
        endpoint_stem(endpoint_stem(endpoint)) == endpoint_stem(endpoint),
    decreases endpoint.len(),
{
    if endpoint.len() > 0 && endpoint.last() == '/' {
        let shorter = endpoint.drop_last();
        lemma_stem_is_bare(shorter);
        assert(shorter.take(endpoint_stem(shorter).len() as int) =~= endpoint.take(
            endpoint_stem(shorter).len() as int,
        ));
    } else if ends_with(endpoint, api_path()) {
        let shorter = endpoint.take(endpoint.len() - api_path().len());
        lemma_stem_is_bare(shorter);
        assert(shorter.take(endpoint_stem(shorter).len() as int) =~= endpoint.take(
            endpoint_stem(shorter).len() as int,
        ));
    } else {
        assert(endpoint.take(endpoint.len() as int) =~= endpoint);
    }
}

/// Normalizing a normalized endpoint changes nothing.
pub proof fn lemma_endpoint_normalization_idempotent(endpoint: Seq<char>)
    ensures
        normalized_endpoint(normalized_endpoint(endpoint)) == normalized_endpoint(endpoint),
{
    lemma_api_path_ignored(endpoint_stem(endpoint));
    lemma_stem_is_bare(endpoint);
}

/// In the normalized endpoint the API path stands at the end, after the stem,
/// and besides that only where it stands inside the stem.
pub proof fn lemma_api_path_places(endpoint: Seq<char>, at: int)
    ensures
        occurs_at(normalized_endpoint(endpoint), api_path(), at) <==> (at == endpoint_stem(
            endpoint,
        ).len() || occurs_at(endpoint_stem(endpoint), api_path(), at)),
{
    let stem = endpoint_stem(endpoint);
    let path = api_path();
    let whole = stem + path;
    if 0 <= at && at + path.len() <= stem.len() {
        assert(whole.subrange(at, at + path.len()) =~= stem.subrange(at, at + path.len()));
    } else if at == stem.len() {
        assert(whole.subrange(at, at + path.len()) =~= path);
    } else if 0 <= at < stem.len() && at + path.len() <= whole.len() {
        let found = whole.subrange(at, at + path.len());
        let k = stem.len() - at;
        if found == path {
            assert(found[k] == whole[stem.len() as int]);
            assert(found[k] == path[k]);
            assert(k == 4);
            assert(found[5] == whole[at + 5]);
        }
    }
}

/// Where the stem of the endpoint does not hold the API path, the normalized
/// endpoint holds it exactly once: at its end.
pub proof fn lemma_api_path_once(endpoint: Seq<char>)
    requires
        !contains(endpoint_stem(endpoint), api_path()),
    ensures
        forall|at: int|
            occurs_at(normalized_endpoint(endpoint), api_path(), at) <==> at == endpoint_stem(
                endpoint,
            ).len(),
{
    assert forall|at: int|
        occurs_at(normalized_endpoint(endpoint), api_path(), at) <==> at == endpoint_stem(
            endpoint,
        ).len() by {
        lemma_api_path_places(endpoint, at);
    }
}

/// Whether a byte stands for itself in percent-encoded text: the letters and
/// digits of ASCII, and `-`, `.`, `_`, `~`.
pub open spec fn is_unreserved(byte: u8) -> bool {
    ||| 0x30 <= byte <= 0x39
    ||| 0x41 <= byte <= 0x5a
    ||| 0x61 <= byte <= 0x7a
    ||| byte == 0x2d
    ||| byte == 0x2e
    ||| byte == 0x5f
    ||| byte == 0x7e
}

/// The digit, `0` to `9` and then `A` to `F`, of a number below sixteen.
pub open spec fn hex_digit(nibble: u8) -> char {
    if nibble < 10 {
        (0x30 + nibble) as char
    } else {
        (0x41 + nibble - 10) as char
    }
}

/// What one byte becomes in percent-encoded text: itself, or `%` and its two
/// hexadecimal digits.
pub open spec fn encoded_byte(byte: u8) -> Seq<char> {
    if is_unreserved(byte) {
        seq![byte as char]
    } else {
        seq!['%', hex_digit(byte / 16), hex_digit(byte % 16)]
    }
}

/// Percent-encoded text for a sequence of bytes.
pub open spec fn percent_encoded(bytes: Seq<u8>) -> Seq<char>
    decreases bytes.len(),
{
    if bytes.len() == 0 {
        Seq::empty()
    } else {
        percent_encoded(bytes.drop_last()) + encoded_byte(bytes.last())
    }
}

/// `urlencoding::encode`: the UTF-8 bytes of the text, each unreserved byte
/// as it is and every other byte as `%` and two upper-case hexadecimal digits.
#[verifier::external_body]
fn percent_encode(text: &str) -> (encoded: String)
    ensures
        encoded@ == percent_encoded(text.spec_bytes()),
{
    urlencoding::encode(text).into_owned()
}

/// The address of one call with all that it carries, as query parameters.
pub open spec fn call_url(
    endpoint: Seq<char>,
    token: Seq<char>,
    account: Seq<char>,
    phone_id: Seq<char>,
    operation: Operation,
    text: Seq<char>,
    phone_number: Seq<char>,
) -> Seq<char> {
    normalized_endpoint(endpoint) + "?key="@ + token + "&account_id="@ + account + "&phone_id="@
        + phone_id + "&action="@ + operation.action() + "&"@ + operation.text_parameter() + "="@
        + percent_encoded(vstd::utf8::encode_utf8(text)) + "&chat_number="@ + digits_of(
        phone_number,
    )
}

/// One notification for the platform: what to do, for whom, and with what text.
#[derive(Debug)]
pub struct NotificationRequest {
    pub operation: Operation,
    /// The recipient's phone number, as the caller has it.
    pub phone_number: String,
    /// The phone identifier to send from; `None` stands for [`DEFAULT_PHONE_ID`].
    pub phone_id: Option<String>,
    /// The annotation or the message.
    pub text: String,
}

impl NotificationRequest {
    /// The phone identifier that the call carries.
    pub open spec fn effective_phone_id(self) -> Seq<char> {
        match self.phone_id {
            Some(id) => id@,
            None => DEFAULT_PHONE_ID@,
        }
    }
}

/// One call, ready to be sent: an HTTP POST to `url`, with an empty body.
#[derive(Debug)]
pub struct OutboundCall {
    pub operation: Operation,
    pub url: String,
}

impl OutboundCall {
    /// What the caller of the operation gets, given how the sending ended. A
    /// call that found no answer fails with a `NetworkError`. A call that was
    /// answered succeeds, whatever the answer: the disposition says what the
    /// answer amounts to.
    pub fn conclude(&self, reply: &Reply) -> (outcome: Result<Disposition, ChatGuruError>)
        ensures
            match *reply {
                Reply::Answer { status, body } => outcome == Ok::<Disposition, ChatGuruError>(
                    classified(self.operation, status, body@),
                ),
                Reply::Failure { reason } => outcome matches Err(ChatGuruError::NetworkError(text))
                    && text@ == self.operation.failure_prefix() + reason@,
            },
    {
        match reply {
            Reply::Answer { status, body } => Ok(classify(self.operation, *status, body.as_str())),
            Reply::Failure { reason } => {
                let prefix = match self.operation {
                    Operation::AddAnnotation => "Failed to add annotation: ",
                    Operation::SendMessage => "Failed to send message: ",
                };
                Err(ChatGuruError::NetworkError(String::from_str(prefix).concat(reason.as_str())))
            },
        }
    }
}

/// The configuration of the client: who calls, and where.
#[derive(Debug)]
pub struct ChatGuruClient {
    api_token: String,
    api_endpoint: String,
    account_id: String,
}

impl ChatGuruClient {
    /// The token that authenticates the calls.
    pub closed spec fn api_token(self) -> Seq<char> {
        self.api_token@
    }

    /// The endpoint as configured.
    pub closed spec fn api_endpoint(self) -> Seq<char> {
        self.api_endpoint@
    }

    /// The account that the calls are made for.
    pub closed spec fn account_id(self) -> Seq<char> {
        self.account_id@
    }

    /// The address of the call for a request.
    pub open spec fn url_of(self, request: NotificationRequest) -> Seq<char> {
        call_url(
            self.api_endpoint(),
            self.api_token(),
            self.account_id(),
            request.effective_phone_id(),
            request.operation,
            request.text@,
            request.phone_number@,
        )
    }

    /// A client for the given token, endpoint and account.
    pub fn new(api_token: String, api_endpoint: String, account_id: String) -> (client: Self)
        ensures
            client.api_token() == api_token@,
            client.api_endpoint() == api_endpoint@,
            client.account_id() == account_id@,
    {
        ChatGuruClient { api_token, api_endpoint, account_id }
    }

    /// The call that carries out a request.
    pub fn prepare(&self, request: &NotificationRequest) -> (call: OutboundCall)
        ensures
            call.operation == request.operation,
            call.url@ == self.url_of(*request),
    {
        let mut url = normalize_endpoint(self.api_endpoint.as_str());
        url.append("?key=");
        url.append(self.api_token.as_str());
        url.append("&account_id=");
        url.append(self.account_id.as_str());
        url.append("&phone_id=");
        match &request.phone_id {
            Some(id) => url.append(id.as_str()),
            None => url.append(DEFAULT_PHONE_ID),
        }
        url.append("&action=");
        match request.operation {
            Operation::AddAnnotation => {
                url.append("note_add");
                url.append("&");
                url.append("note_text");
            },
            Operation::SendMessage => {
                url.append("message_send");
                url.append("&");
                url.append("text");
            },
        }
        url.append("=");
        let encoded = percent_encode(request.text.as_str());
        url.append(encoded.as_str());
        url.append("&chat_number=");
        let clean = clean_phone(request.phone_number.as_str());
        url.append(clean.as_str());
        OutboundCall { operation: request.operation, url }
    }

    /// The call that adds an annotation to the chat of a contact. The chat
    /// identifier is for the host's records: the platform finds the chat by
    /// the phone number, and the call does not carry the identifier.
    pub fn add_annotation(&self, chat_id: &str, phone_number: &str, annotation_text: &str) -> (call:
        OutboundCall)
        ensures
            call.operation == Operation::AddAnnotation,
            call.url@ == call_url(
                self.api_endpoint(),
                self.api_token(),
                self.account_id(),
                DEFAULT_PHONE_ID@,
                Operation::AddAnnotation,
                annotation_text@,
                phone_number@,
            ),
    {
        let request = NotificationRequest {
            operation: Operation::AddAnnotation,
            phone_number: String::from_str(phone_number),
            phone_id: None,
            text: String::from_str(annotation_text),
        };
        self.prepare(&request)
    }

    /// The call that sends a confirmation message to a contact, from the given
    /// phone identifier or, without one, from [`DEFAULT_PHONE_ID`]. The
    /// platform delivers it only into a conversation that is already active.
    pub fn send_confirmation_message(
        &self,
        phone_number: &str,
        phone_id: Option<&str>,
        message: &str,
    ) -> (call: OutboundCall)
        ensures
            call.operation == Operation::SendMessage,
            call.url@ == call_url(
                self.api_endpoint(),
                self.api_token(),
                self.account_id(),
                match phone_id {
                    Some(id) => id@,
                    None => DEFAULT_PHONE_ID@,
                },
                Operation::SendMessage,
                message@,
                phone_number@,
            ),
    {
        let request = NotificationRequest {
            operation: Operation::SendMessage,
            phone_number: String::from_str(phone_number),
            phone_id: match phone_id {
                Some(id) => Some(String::from_str(id)),
                None => None,
            },
            text: String::from_str(message),
        };
        self.prepare(&request)
    }
}

impl Clone for ChatGuruClient {
    fn clone(&self) -> (copy: ChatGuruClient)
        ensures
            copy == *self,
    {
        ChatGuruClient {
            api_token: self.api_token.clone(),
            api_endpoint: self.api_endpoint.clone(),
            account_id: self.account_id.clone(),
        }
    }
}

} // verus!
