use crate::digest::{hashable, sha1, sha1_hex};
use crate::error::{AuthError, UploadError, UploadErrorView};
use crate::request::{pair_views, push_pair, HttpRequest, HttpRequestView, Method};
use crate::text::{
    decimal, i32_to_decimal, signed_decimal, text_of, to_uppercase, u64_to_decimal, uppercase,
};
use vstd::prelude::*;
use vstd::string::*;

verus! {

pub const INFO_URL: &'static str = "https://proapi.115.com/app/uploadinfo";

pub const CREATE_DIR_URL: &'static str = "https://webapi.115.com/files/add";

pub const DELETE_URL: &'static str = "https://webapi.115.com/rb/delete";

pub const UPLOAD_URL: &'static str =
    "https://uplb.115.com/3.0/initupload.php?isp=0&appid=0&appversion=";

pub const UPLOAD_URL_SIG: &'static str = "&format=json&sig=";

pub const TARGET_PREFIX: &'static str = "U_1_";

pub const APP_VER: &'static str = "29.0.0";

pub const USER_AGENT_PREFIX: &'static str = "Mozilla/5.0 115disk/";

pub const END_STRING: &'static str = "000000";

pub const FORM_CONTENT_TYPE: &'static str = "application/x-www-form-urlencoded";

pub const SIGN_INPUT_TOO_LONG: &'static str = "request too long to sign";

/// What the provider tells of the user behind a cookie.
#[derive(Clone, Debug, PartialEq, Eq)]
pub struct UserInfo {
    pub user_id: i32,
    pub userkey: String,
}

/// A user's record as text.
pub struct UserInfoView {
    pub user_id: int,
    pub userkey: Seq<char>,
}

impl View for UserInfo {
    type V = UserInfoView;

    open spec fn view(&self) -> UserInfoView {
        UserInfoView { user_id: self.user_id as int, userkey: self.userkey@ }
    }
}

/// A file in the user's storage: its path, and the folder it lies in.
#[derive(Clone, Debug, PartialEq, Eq)]
pub struct File {
    pub path: String,
    pub cid: u64,
}

impl File {
    /// Does nothing.
    pub fn test() {
    }
}

/// The credentials of one user: the cookie, and the identity and key derived
/// from it, which every signed request needs.
#[derive(Clone, Debug, PartialEq, Eq)]
pub struct Session {
    pub cookies: String,
    pub user_id: Option<String>,
    pub user_key: Option<String>,
    pub ua: String,
}

/// A session as text.
pub struct SessionView {
    pub cookies: Seq<char>,
    pub user_id: Option<Seq<char>>,
    pub user_key: Option<Seq<char>>,
    pub ua: Seq<char>,
}

impl View for Session {
    type V = SessionView;

    open spec fn view(&self) -> SessionView {
        SessionView {
            cookies: self.cookies@,
            user_id: text_of(self.user_id),
            user_key: text_of(self.user_key),
            ua: self.ua@,
        }
    }
}

/// The agent that every request names.
pub open spec fn user_agent() -> Seq<char> {
    USER_AGENT_PREFIX@ + APP_VER@
}

/// The agent that every request names, as text to send.
pub fn user_agent_text() -> (text: String)
    ensures
        text@ == user_agent(),
{
    let mut text = String::from_str(USER_AGENT_PREFIX);
    text.append(APP_VER);
    text
}

impl SessionView {
    /// A session made from a cookie alone: no keys yet.
    pub open spec fn fresh(cookies: Seq<char>) -> SessionView {
        SessionView { cookies, user_id: None, user_key: None, ua: user_agent() }
    }

    /// Whether the identity or the key is still to be derived.
    pub open spec fn needs_keys(self) -> bool {
        self.user_id is None || self.user_key is None
    }

    /// The session with the identity and key that `info` gives.
    pub open spec fn with_user_info(self, info: UserInfoView) -> SessionView {
        SessionView {
            user_id: Some(signed_decimal(info.user_id)),
            user_key: Some(info.userkey),
            ..self
        }
    }

    /// The request that fetches the keys of this session.
    pub open spec fn key_request(self) -> HttpRequestView {
        HttpRequestView {
            method: Method::Get,
            url: INFO_URL@,
            headers: seq![("User-Agent"@, self.ua), ("Cookie"@, self.cookies)],
            form: Seq::empty(),
        }
    }
}

/// The view of what a fetch of the keys brought.
pub open spec fn info_of(reply: Option<UserInfo>) -> Option<UserInfoView> {
    match reply {
        Some(info) => Some(info@),
        None => None,
    }
}

/// One round of key derivation, told as a whole: whether the provider was
/// asked, the session afterwards, and whether the round succeeded.
pub struct Derivation {
    pub session: SessionView,
    pub fetched: bool,
    pub result: Result<(), AuthError>,
}

/// Derives the keys of `session` if it lacks them, where `reply` is what a
/// fetch would bring: the user's record, or nothing if the fetch fails.
pub open spec fn derive_keys(session: SessionView, reply: Option<UserInfoView>) -> Derivation {
    if !session.needs_keys() {
        Derivation { session, fetched: false, result: Ok(()) }
    } else {
        match reply {
            Some(info) => Derivation {
                session: session.with_user_info(info),
                fetched: true,
                result: Ok(()),
            },
            None => Derivation { session, fetched: true, result: Err(AuthError::KeyFetchFailed) },
        }
    }
}

/// Key derivation is idempotent: once a round has succeeded the keys are set,
/// and any later round asks the provider nothing, changes nothing and
/// succeeds. Over two rounds of which the first succeeds, the provider is
/// asked at most once.
pub proof fn lemma_derive_keys_idempotent(
    session: SessionView,
    first: Option<UserInfoView>,
    second: Option<UserInfoView>,
)
    requires
        derive_keys(session, first).result is Ok,
    ensures
        !derive_keys(session, first).session.needs_keys(),
        derive_keys(derive_keys(session, first).session, second) == (Derivation {
            session: derive_keys(session, first).session,
            fetched: false,
            result: Ok(()),
        }),
{
}

impl Session {
    /// A session for `cookies`, its keys not yet derived.
    pub fn new(cookies: String) -> (session: Session)
        ensures
            session@ == SessionView::fresh(cookies@),
    {
        Session { cookies, user_id: None, user_key: None, ua: user_agent_text() }
    }

    /// A copy of the session.
    pub fn duplicate(&self) -> (copy: Session)
        ensures
            copy@ == self@,
    {
        Session {
            cookies: self.cookies.clone(),
            user_id: match &self.user_id {
                Some(id) => Some(id.clone()),
                None => None,
            },
            user_key: match &self.user_key {
                Some(key) => Some(key.clone()),
                None => None,
            },
            ua: self.ua.clone(),
        }
    }

    /// The first half of a round of key derivation: the request to send if
    /// the keys are missing, nothing if they are set.
    pub fn get_key_if_none(&self) -> (request: Option<HttpRequest>)
        ensures
            match request {
                Some(r) => self@.needs_keys() && r@ == self@.key_request(),
                None => !self@.needs_keys(),
            },
            request is Some == derive_keys(self@, None).fetched,
    {
        if self.user_id.is_none() || self.user_key.is_none() {
            let mut headers: Vec<(String, String)> = Vec::new();
            push_pair(&mut headers, "User-Agent", self.ua.as_str());
            push_pair(&mut headers, "Cookie", self.cookies.as_str());
            let request = HttpRequest {
                method: Method::Get,
                url: String::from_str(INFO_URL),
                headers,
                form: Vec::new(),
            };
            assert(request@.headers =~= self@.key_request().headers);
            assert(request@.form =~= self@.key_request().form);
            Some(request)
        } else {
            None
        }
    }

    /// The second half of a round of key derivation, for a session whose keys
    /// were asked for: takes what the fetch brought, the user's record or
    /// nothing if it failed, and sets the keys from it.
    pub fn get_user_key(&mut self, reply: Option<UserInfo>) -> (result: Result<(), AuthError>)
        ensures
            match reply {
                Some(info) => result is Ok && final(self)@ == old(self)@.with_user_info(info@),
                None => result == Err::<(), AuthError>(AuthError::KeyFetchFailed) && final(self)@
                    == old(self)@,
            },
            old(self)@.needs_keys() ==> {
                &&& result == derive_keys(old(self)@, info_of(reply)).result
                &&& final(self)@ == derive_keys(old(self)@, info_of(reply)).session
            },
    {
        match reply {
            Some(info) => {
                self.user_id = Some(i32_to_decimal(info.user_id));
                self.user_key = Some(info.userkey);
                Ok(())
            },
            None => Err(AuthError::KeyFetchFailed),
        }
    }
}

/// The folder `cid` as the target of an upload.
pub open spec fn target_of(cid: u64) -> Seq<char> {
    TARGET_PREFIX@ + decimal(cid as nat)
}

/// What is hashed first to sign an upload: the user, the file id twice, the
/// target and a closing `0`.
pub open spec fn sign_input(user_id: Seq<char>, file_id: Seq<char>, target: Seq<char>) -> Seq<
    char,
> {
    user_id + file_id + file_id + target + "0"@
}

/// What is hashed second: the user's key, the first digest and the fixed
/// suffix.
pub open spec fn outer_input(user_key: Seq<char>, inner: Seq<char>) -> Seq<char> {
    user_key + inner + END_STRING@
}

/// The signature of an upload: the digest of the key around the digest of
/// what is uploaded where.
pub open spec fn upload_signature(
    user_id: Seq<char>,
    user_key: Seq<char>,
    file_id: Seq<char>,
    target: Seq<char>,
) -> Seq<char> {
    sha1_hex(outer_input(user_key, sha1_hex(sign_input(user_id, file_id, target))))
}

/// Whether both texts that a signature hashes are of a length the hasher takes.
pub open spec fn signable(
    user_id: Seq<char>,
    user_key: Seq<char>,
    file_id: Seq<char>,
    target: Seq<char>,
) -> bool {
    hashable(sign_input(user_id, file_id, target)) && hashable(
        outer_input(user_key, sha1_hex(sign_input(user_id, file_id, target))),
    )
}

/// The address of an upload signed with `sig`.
pub open spec fn upload_url(sig: Seq<char>) -> Seq<char> {
    UPLOAD_URL@ + APP_VER@ + UPLOAD_URL_SIG@ + sig
}

/// The form of an upload, field by field.
pub open spec fn upload_form(
    user_id: Seq<char>,
    filename: Seq<char>,
    file_size: Seq<char>,
    file_id: Seq<char>,
    block_hash: Seq<char>,
    target: Seq<char>,
) -> Seq<(Seq<char>, Seq<char>)> {
    seq![
        ("preid"@, block_hash),
        ("filename"@, filename),
        ("quickid"@, file_id),
        ("user_id"@, user_id),
        ("app_ver"@, APP_VER@),
        ("filesize"@, file_size),
        ("userid"@, user_id),
        ("exif"@, ""@),
        ("target"@, target),
        ("fileid"@, file_id),
    ]
}

/// The headers of an upload.
pub open spec fn upload_headers(ua: Seq<char>, cookies: Seq<char>) -> Seq<(Seq<char>, Seq<char>)> {
    seq![("Content-Type"@, FORM_CONTENT_TYPE@), ("Cookie"@, cookies), ("User-Agent"@, ua)]
}

/// The headers of a request that creates or deletes.
pub open spec fn form_headers(ua: Seq<char>, cookies: Seq<char>) -> Seq<(Seq<char>, Seq<char>)> {
    seq![("User-Agent"@, ua), ("Cookie"@, cookies), ("Content-Type"@, FORM_CONTENT_TYPE@)]
}

/// The signed upload of a file id to a target, given the signature.
pub open spec fn signed_upload(
    session: SessionView,
    user_id: Seq<char>,
    filename: Seq<char>,
    file_size: Seq<char>,
    file_id: Seq<char>,
    block_hash: Seq<char>,
    target: Seq<char>,
    sig: Seq<char>,
) -> HttpRequestView {
    HttpRequestView {
        method: Method::Post,
        url: upload_url(sig),
        headers: upload_headers(session.ua, session.cookies),
        form: upload_form(user_id, filename, file_size, file_id, block_hash, target),
    }
}

/// The probe that declares a file of the given name, size and hashes in the
/// folder `cid`: the signed request, or why none can be made.
pub open spec fn upload_request(
    session: SessionView,
    filename: Seq<char>,
    file_size: Seq<char>,
    total_hash: Seq<char>,
    block_hash: Seq<char>,
    cid: u64,
) -> Result<HttpRequestView, UploadErrorView> {
    let file_id = uppercase(total_hash);
    let target = target_of(cid);
    match (session.user_id, session.user_key) {
        (None, _) => Err(UploadErrorView::MissingUserId),
        (Some(_), None) => Err(UploadErrorView::MissingUserKey),
        (Some(user_id), Some(user_key)) => if signable(user_id, user_key, file_id, target) {
            Ok(
                signed_upload(
                    session,
                    user_id,
                    filename,
                    file_size,
                    file_id,
                    block_hash,
                    target,
                    upload_signature(user_id, user_key, file_id, target),
                ),
            )
        } else {
            Err(UploadErrorView::Other(SIGN_INPUT_TOO_LONG@))
        },
    }
}

/// The view of a request or of the error in its place.
pub open spec fn request_or_error(result: Result<HttpRequest, UploadError>) -> Result<
    HttpRequestView,
    UploadErrorView,
> {
    match result {
        Ok(request) => Ok(request@),
        Err(e) => Err(e@),
    }
}

/// The text hashed first to sign an upload.
pub fn make_sign_input(user_id: &str, file_id: &str, target: &str) -> (text: String)
    ensures
        text@ == sign_input(user_id@, file_id@, target@),
{
    let mut text = String::from_str(user_id);
    text.append(file_id);
    text.append(file_id);
    text.append(target);
    text.append("0");
    text
}

/// The text hashed second, around the first digest `inner`.
pub fn make_outer_input(user_key: &str, inner: &str) -> (text: String)
    ensures
        text@ == outer_input(user_key@, inner@),
{
    let mut text = String::from_str(user_key);
    text.append(inner);
    text.append(END_STRING);
    text
}

/// The target text of the folder `cid`.
pub fn make_target(cid: u64) -> (text: String)
    ensures
        text@ == target_of(cid),
{
    let mut text = String::from_str(TARGET_PREFIX);
    text.append(u64_to_decimal(cid).as_str());
    text
}

/// The headers of a request that creates or deletes, for `session`.
fn make_form_headers(session: &Session) -> (headers: Vec<(String, String)>)
    ensures
        pair_views(headers@) == form_headers(session@.ua, session@.cookies),
{
    let mut headers: Vec<(String, String)> = Vec::new();
    push_pair(&mut headers, "User-Agent", session.ua.as_str());
    push_pair(&mut headers, "Cookie", session.cookies.as_str());
    push_pair(&mut headers, "Content-Type", FORM_CONTENT_TYPE);
    assert(pair_views(headers@) =~= form_headers(session@.ua, session@.cookies));
    headers
}

impl Session {
    /// The upload of `file_id` to `target` under the signature `sig`, all
    /// three as they go on the wire.
    pub fn signed_upload(
        &self,
        user_id: &str,
        filename: &str,
        file_size: &str,
        file_id: &str,
        block_hash: &str,
        target: &str,
        sig: &str,
    ) -> (request: HttpRequest)
        ensures
            request@ == signed_upload(
                self@,
                user_id@,
                filename@,
                file_size@,
                file_id@,
                block_hash@,
                target@,
                sig@,
            ),
    {
        let mut form: Vec<(String, String)> = Vec::new();
        push_pair(&mut form, "preid", block_hash);
        push_pair(&mut form, "filename", filename);
        push_pair(&mut form, "quickid", file_id);
        push_pair(&mut form, "user_id", user_id);
        push_pair(&mut form, "app_ver", APP_VER);
        push_pair(&mut form, "filesize", file_size);
        push_pair(&mut form, "userid", user_id);
        push_pair(&mut form, "exif", "");
        push_pair(&mut form, "target", target);
        push_pair(&mut form, "fileid", file_id);
        let mut headers: Vec<(String, String)> = Vec::new();
        push_pair(&mut headers, "Content-Type", FORM_CONTENT_TYPE);
        push_pair(&mut headers, "Cookie", self.cookies.as_str());
        push_pair(&mut headers, "User-Agent", self.ua.as_str());
        let mut url = String::from_str(UPLOAD_URL);
        url.append(APP_VER);
        url.append(UPLOAD_URL_SIG);
        url.append(sig);
        let request = HttpRequest { method: Method::Post, url, headers, form };
        assert(request@.form =~= upload_form(
            user_id@,
            filename@,
            file_size@,
            file_id@,
            block_hash@,
            target@,
        ));
        assert(request@.headers =~= upload_headers(self@.ua, self@.cookies));
        request
    }

    /// The probe that declares a file named `filename`, of size `file_size`
    /// and with the hashes `total_hash` and `block_hash`, in the folder `cid`.
    ///
    /// Fails where the keys of the session are not derived, and where a text
    /// to sign is longer than the hasher takes.
    pub fn upload115_sha1(
        &self,
        filename: String,
        file_size: String,
        total_hash: String,
        block_hash: String,
        cid: u64,
    ) -> (result: Result<HttpRequest, UploadError>)
        ensures
            request_or_error(result) == upload_request(
                self@,
                filename@,
                file_size@,
                total_hash@,
                block_hash@,
                cid,
            ),
            result is Ok ==> !self@.needs_keys(),
    {
        let file_id = to_uppercase(total_hash.as_str());
        let target = make_target(cid);
        let user_id = match &self.user_id {
            Some(id) => id,
            None => {
                return Err(UploadError::MissingUserId);
            },
        };
        let user_key = match &self.user_key {
            Some(key) => key,
            None => {
                return Err(UploadError::MissingUserKey);
            },
        };
        let inner_input = make_sign_input(user_id.as_str(), file_id.as_str(), target.as_str());
        let inner = match sha1(inner_input.as_str()) {
            Some(digest) => digest,
            None => {
                return Err(UploadError::Other(String::from_str(SIGN_INPUT_TOO_LONG)));
            },
        };
        let sig_string = make_outer_input(user_key.as_str(), inner.as_str());
        let sig = match sha1(sig_string.as_str()) {
            Some(digest) => digest,
            None => {
                return Err(UploadError::Other(String::from_str(SIGN_INPUT_TOO_LONG)));
            },
        };
        Ok(
            self.signed_upload(
                user_id.as_str(),
                filename.as_str(),
                file_size.as_str(),
                file_id.as_str(),
                block_hash.as_str(),
                target.as_str(),
                sig.as_str(),
            ),
        )
    }
}

/// The name under which a bulk delete sends its `i`-th target.
pub open spec fn fid_field(i: nat) -> Seq<char> {
    "fid["@ + decimal(i) + "]"@
}

/// The request that creates the folder `name` under the folder `pid`.
pub open spec fn create_folder_request(session: SessionView, pid: u64, name: Seq<char>)
    -> HttpRequestView {
    HttpRequestView {
        method: Method::Post,
        url: CREATE_DIR_URL@,
        headers: form_headers(session.ua, session.cookies),
        form: seq![("pid"@, decimal(pid as nat)), ("cname"@, name)],
    }
}

/// The request that deletes the node `target` of the folder `pid`, warnings
/// ignored.
pub open spec fn delete_one_request(session: SessionView, pid: u64, target: u64)
    -> HttpRequestView {
    HttpRequestView {
        method: Method::Post,
        url: DELETE_URL@,
        headers: form_headers(session.ua, session.cookies),
        form: seq![
            ("pid"@, decimal(pid as nat)),
            ("fid[0]"@, decimal(target as nat)),
            ("ignore_warn"@, "1"@),
        ],
    }
}

/// The request that deletes the nodes `targets` of the folder `pid`, warnings
/// ignored: each target under a name that carries its index.
pub open spec fn delete_bulk_request(session: SessionView, pid: u64, targets: Seq<u64>)
    -> HttpRequestView {
    HttpRequestView {
        method: Method::Post,
        url: DELETE_URL@,
        headers: form_headers(session.ua, session.cookies),
        form: seq![("pid"@, decimal(pid as nat)), ("ignore_warn"@, "1"@)] + Seq::new(
            targets.len(),
            |i: int| (fid_field(i as nat), decimal(targets[i] as nat)),
        ),
    }
}

impl Session {
    /// The request that creates the folder `name` under the folder `pid`.
    pub fn create_folder(&self, pid: u64, name: String) -> (request: HttpRequest)
        ensures
            request@ == create_folder_request(self@, pid, name@),
    {
        let mut form: Vec<(String, String)> = Vec::new();
        push_pair(&mut form, "pid", u64_to_decimal(pid).as_str());
        push_pair(&mut form, "cname", name.as_str());
        let request = HttpRequest {
            method: Method::Post,
            url: String::from_str(CREATE_DIR_URL),
            headers: make_form_headers(self),
            form,
        };
        assert(request@.form =~= create_folder_request(self@, pid, name@).form);
        request
    }

    /// The request that deletes the node `target` of the folder `pid`.
    pub fn delete_one(&self, pid: u64, target: u64) -> (request: HttpRequest)
        ensures
            request@ == delete_one_request(self@, pid, target),
    {
        let mut form: Vec<(String, String)> = Vec::new();
        push_pair(&mut form, "pid", u64_to_decimal(pid).as_str());
        push_pair(&mut form, "fid[0]", u64_to_decimal(target).as_str());
        push_pair(&mut form, "ignore_warn", "1");
        let request = HttpRequest {
            method: Method::Post,
            url: String::from_str(DELETE_URL),
            headers: make_form_headers(self),
            form,
        };
        assert(request@.form =~= delete_one_request(self@, pid, target).form);
        request
    }

    /// The request that deletes the nodes `target_list` of the folder `pid`.
    pub fn delete_bulk(&self, pid: u64, target_list: Vec<u64>) -> (request: HttpRequest)
        ensures
            request@ == delete_bulk_request(self@, pid, target_list@),
    {
        let mut form: Vec<(String, String)> = Vec::new();
        push_pair(&mut form, "pid", u64_to_decimal(pid).as_str());
        push_pair(&mut form, "ignore_warn", "1");
        let ghost head = pair_views(form@);
        assert(head =~= seq![("pid"@, decimal(pid as nat)), ("ignore_warn"@, "1"@)]);
        let mut i: usize = 0;
        while i < target_list.len()
            invariant
                i <= target_list.len(),
                pair_views(form@) == head + Seq::new(
                    i as nat,
                    |k: int| (fid_field(k as nat), decimal(target_list@[k] as nat)),
                ),
            decreases target_list.len() - i,
        {
            let mut key = String::from_str("fid[");
            key.append(u64_to_decimal(i as u64).as_str());
            key.append("]");
            let ghost before = pair_views(form@);
            push_pair(&mut form, key.as_str(), u64_to_decimal(target_list[i]).as_str());
            assert(pair_views(form@) =~= head + Seq::new(
                (i + 1) as nat,
                |k: int| (fid_field(k as nat), decimal(target_list@[k] as nat)),
            ));
            i += 1;
        }
        let request = HttpRequest {
            method: Method::Post,
            url: String::from_str(DELETE_URL),
            headers: make_form_headers(self),
            form,
        };
        assert(request@.form =~= delete_bulk_request(self@, pid, target_list@).form);
        request
    }
}

} // verus!
