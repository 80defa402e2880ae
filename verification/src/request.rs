//! A fax send request: its checks, the summary that approval is asked with,
//! and the form that is sent.
use vstd::prelude::*;
use crate::config::{join2, mask, opt_view, spec_mask, spec_mask_defined};
use crate::decimal::{decimal, spec_decimal};
use crate::text::{is_blank, join_strings, owned, spec_is_blank, spec_join, spec_trim, strings_view, trim};

verus! {

/// One recipient of a fax.
#[derive(Clone, Debug)]
pub struct FaxReceiver {
    pub receive_num: String,
    pub receive_name: String,
    pub inter_op_ref_key: String,
}

/// A request to send one fax to one or more recipients.
#[derive(Clone, Debug)]
pub struct FaxRequest {
    pub sender: String,
    pub sender_name: String,
    pub title: String,
    pub ads_yn: bool,
    pub reserve_dt: String,
    pub request_num: String,
    pub receivers: Vec<FaxReceiver>,
    pub files: Vec<String>,
}

/// What the file system says of a path.
#[derive(Clone, Copy, PartialEq, Eq, Structural, Debug)]
pub enum FileStatus {
    Missing,
    NotRegularFile,
    RegularFile,
}

pub const MAX_RECEIVERS: usize = 1000;
pub const MAX_FILES: usize = 20;

/// Why a request is refused.
#[derive(Clone, Debug)]
pub enum FaxRequestError {
    SenderRequired,
    ReceiversEmpty,
    TooManyReceivers,
    /// The recipient at this position has a blank number.
    ReceiveNumRequired(usize),
    FilesEmpty,
    TooManyFiles,
    /// The file at this position does not exist.
    FileNotFound(usize, String),
    /// The file at this position exists but is not a regular file.
    NotRegularFile(usize, String),
}

/// A refusal, with positions only.
pub enum FaxRequestProblem {
    SenderRequired,
    ReceiversEmpty,
    TooManyReceivers,
    ReceiveNumRequired(int),
    FilesEmpty,
    TooManyFiles,
    FileNotFound(int),
    NotRegularFile(int),
}

pub open spec fn receiver_blank(rs: Seq<FaxReceiver>, i: int) -> bool {
    spec_is_blank(rs[i].receive_num@)
}

/// `i` is the first recipient with a blank number.
pub open spec fn is_first_blank_receiver(rs: Seq<FaxReceiver>, i: int) -> bool {
    &&& 0 <= i < rs.len()
    &&& receiver_blank(rs, i)
    &&& forall|j: int| 0 <= j < i ==> !receiver_blank(rs, j)
}

/// `i` is the first file that is not a regular file.
pub open spec fn is_first_bad_file(st: Seq<FileStatus>, i: int) -> bool {
    &&& 0 <= i < st.len()
    &&& st[i] != FileStatus::RegularFile
    &&& forall|j: int| 0 <= j < i ==> st[j] == FileStatus::RegularFile
}

/// The first reason, in the order the checks are made, to refuse a request
/// whose files have the statuses `st`.
pub open spec fn spec_request_problem(req: FaxRequest, st: Seq<FileStatus>) -> Option<
    FaxRequestProblem,
> {
    let rs = req.receivers@;
    if spec_is_blank(req.sender@) {
        Some(FaxRequestProblem::SenderRequired)
    } else if rs.len() == 0 {
        Some(FaxRequestProblem::ReceiversEmpty)
    } else if rs.len() > MAX_RECEIVERS {
        Some(FaxRequestProblem::TooManyReceivers)
    } else if exists|i: int| 0 <= i < rs.len() && receiver_blank(rs, i) {
        Some(
            FaxRequestProblem::ReceiveNumRequired(
                choose|i: int| is_first_blank_receiver(rs, i),
            ),
        )
    } else if req.files@.len() == 0 {
        Some(FaxRequestProblem::FilesEmpty)
    } else if req.files@.len() > MAX_FILES {
        Some(FaxRequestProblem::TooManyFiles)
    } else if exists|i: int| 0 <= i < st.len() && st[i] != FileStatus::RegularFile {
        let i = choose|i: int| is_first_bad_file(st, i);
        if st[i] == FileStatus::Missing {
            Some(FaxRequestProblem::FileNotFound(i))
        } else {
            Some(FaxRequestProblem::NotRegularFile(i))
        }
    } else {
        None
    }
}

/// What an error says, with positions only.
pub open spec fn problem_of(e: FaxRequestError) -> FaxRequestProblem {
    match e {
        FaxRequestError::SenderRequired => FaxRequestProblem::SenderRequired,
        FaxRequestError::ReceiversEmpty => FaxRequestProblem::ReceiversEmpty,
        FaxRequestError::TooManyReceivers => FaxRequestProblem::TooManyReceivers,
        FaxRequestError::ReceiveNumRequired(i) => FaxRequestProblem::ReceiveNumRequired(i as int),
        FaxRequestError::FilesEmpty => FaxRequestProblem::FilesEmpty,
        FaxRequestError::TooManyFiles => FaxRequestProblem::TooManyFiles,
        FaxRequestError::FileNotFound(i, _) => FaxRequestProblem::FileNotFound(i as int),
        FaxRequestError::NotRegularFile(i, _) => FaxRequestProblem::NotRegularFile(i as int),
    }
}

/// Checks a request before anything is sent: a sender; 1 to 1000
/// recipients, each with a number; 1 to 20 files, each a regular file
/// (`file_statuses[i]` is what the file system says of `files[i]`).
#[verifier::loop_isolation(false)]
pub fn validate_fax_request(request: &FaxRequest, file_statuses: &Vec<FileStatus>) -> (r: Result<
    (),
    FaxRequestError,
>)
    requires
        file_statuses.len() == request.files.len(),
    ensures
        match spec_request_problem(*request, file_statuses@) {
            None => r is Ok,
            Some(p) => r matches Err(e) && problem_of(e) == p,
        },
        r matches Err(FaxRequestError::FileNotFound(i, path)) ==> path@ == request.files@[i as int]@,
        r matches Err(FaxRequestError::NotRegularFile(i, path)) ==> path@
            == request.files@[i as int]@,
{
    let ghost rs = request.receivers@;
    if is_blank(request.sender.as_str()) {
        return Err(FaxRequestError::SenderRequired);
    }
    if request.receivers.len() == 0 {
        return Err(FaxRequestError::ReceiversEmpty);
    }
    if request.receivers.len() > MAX_RECEIVERS {
        return Err(FaxRequestError::TooManyReceivers);
    }
    let mut i: usize = 0;
    while i < request.receivers.len()
        invariant
            rs == request.receivers@,
            i <= rs.len(),
            forall|j: int| 0 <= j < i ==> !receiver_blank(rs, j),
        decreases rs.len() - i,
    {
        if is_blank(request.receivers[i].receive_num.as_str()) {
            proof {
                assert(is_first_blank_receiver(rs, i as int));
                let k = choose|k: int| is_first_blank_receiver(rs, k);
                if k < i {
                } else if k > i {
                    assert(!receiver_blank(rs, i as int));
                }
            }
            return Err(FaxRequestError::ReceiveNumRequired(i));
        }
        i = i + 1;
    }
    if request.files.len() == 0 {
        return Err(FaxRequestError::FilesEmpty);
    }
    if request.files.len() > MAX_FILES {
        return Err(FaxRequestError::TooManyFiles);
    }
    let ghost st = file_statuses@;
    let mut k: usize = 0;
    while k < file_statuses.len()
        invariant
            st == file_statuses@,
            file_statuses.len() == request.files.len(),
            k <= st.len(),
            forall|j: int| 0 <= j < k ==> st[j] == FileStatus::RegularFile,
        decreases st.len() - k,
    {
        let status = file_statuses[k];
        if status != FileStatus::RegularFile {
            proof {
                assert(is_first_bad_file(st, k as int));
                let m = choose|m: int| is_first_bad_file(st, m);
                if m < k {
                } else if m > k {
                    assert(st[k as int] == FileStatus::RegularFile);
                }
            }
            let path = request.files[k].clone();
            if status == FileStatus::Missing {
                return Err(FaxRequestError::FileNotFound(k, path));
            } else {
                return Err(FaxRequestError::NotRegularFile(k, path));
            }
        }
        k = k + 1;
    }
    Ok(())
}

/// The last component of a path as text, as `Path::file_name` followed by
/// `OsStr::to_str` gives it.
pub uninterp spec fn path_file_name(path: Seq<char>) -> Option<Seq<char>>;

/// `Path::new(path).file_name()` followed by `OsStr::to_str`: the result
/// is named `path_file_name` of the path.
#[verifier::external_body]
fn file_name(path: &str) -> (r: Option<String>)
    ensures
        opt_view(r) == path_file_name(path@),
{
    match std::path::Path::new(path).file_name() {
        Some(name) => match name.to_str() {
            Some(text) => Some(text.to_string()),
            None => None,
        },
        None => None,
    }
}

/// The file names of `files` that have one, in order.
pub open spec fn file_names(files: Seq<Seq<char>>) -> Seq<Seq<char>>
    decreases files.len(),
{
    if files.len() == 0 {
        Seq::empty()
    } else {
        let p = file_names(files.drop_last());
        match path_file_name(files.last()) {
            Some(n) => p.push(n),
            None => p,
        }
    }
}

/// The trimmed text, or `placeholder` when it is blank.
pub open spec fn or_placeholder(s: Seq<char>, placeholder: Seq<char>) -> Seq<char> {
    if spec_trim(s).len() == 0 {
        placeholder
    } else {
        spec_trim(s)
    }
}

/// The first five of `s`, or all of it when it is shorter.
pub open spec fn first_five(s: Seq<Seq<char>>) -> Seq<Seq<char>> {
    if s.len() <= 5 {
        s
    } else {
        s.take(5)
    }
}

pub open spec fn files_view(files: Seq<String>) -> Seq<Seq<char>> {
    files.map_values(|f: String| f@)
}

/// The text that approval of a send is asked with, given the file names
/// of its files.
pub open spec fn spec_summary_with_names(req: FaxRequest, names: Seq<Seq<char>>) -> Seq<char> {
    "Popbill 팩스 실제 발송 승인 요청\n발신: "@ + spec_mask(req.sender@) + "\n수신: "@ + spec_decimal(
        req.receivers@.len(),
    ) + "건\n파일: "@ + spec_decimal(req.files@.len()) + "개 ["@ + spec_join(
        first_five(names),
        ", "@,
    ) + "]\n제목: "@ + or_placeholder(req.title@, "(제목 없음)"@) + "\n요청번호: "@
        + or_placeholder(req.request_num@, "(없음)"@)
}

/// The text that approval of a send is asked with.
pub open spec fn spec_approval_summary(req: FaxRequest) -> Seq<char> {
    spec_summary_with_names(req, file_names(files_view(req.files@)))
}

/// The trimmed text of `s`, or `placeholder` when it is blank.
fn trimmed_or<'a>(s: &'a str, placeholder: &'a str) -> (r: &'a str)
    ensures
        r@ == or_placeholder(s@, placeholder@),
{
    let t = trim(s);
    if t.is_empty() {
        placeholder
    } else {
        t
    }
}

/// The file names of a list of paths, in order.
fn collect_file_names(files: &Vec<String>) -> (r: Vec<String>)
    ensures
        strings_view(r@) == file_names(files_view(files@)),
{
    let mut names: Vec<String> = Vec::new();
    let mut i: usize = 0;
    while i < files.len()
        invariant
            i <= files.len(),
            strings_view(names@) == file_names(files_view(files@).take(i as int)),
        decreases files.len() - i,
    {
        let ghost before = names@;
        assert(files_view(files@).take(i + 1).drop_last() =~= files_view(files@).take(i as int));
        match file_name(files[i].as_str()) {
            Some(n) => {
                names.push(n);
                assert(strings_view(names@) =~= strings_view(before).push(
                    n@,
                ));
            },
            None => {},
        }
        i = i + 1;
    }
    assert(files_view(files@).take(files.len() as int) =~= files_view(files@));
    names
}

/// The text that approval of a send is asked with: masked sender, counts,
/// the first five of `names` (the file names of the files), title and
/// request number.
pub fn summary_with_names(request: &FaxRequest, names: &Vec<String>) -> (r: String)
    requires
        spec_mask_defined(request.sender@),
    ensures
        r@ == spec_summary_with_names(*request, strings_view(names@)),
{
    let shown = if names.len() < 5 {
        names.len()
    } else {
        5
    };
    let joined = join_strings(names, shown, ", ");
    assert(strings_view(names@).take(shown as int) =~= first_five(strings_view(names@)));
    let mut s = owned("Popbill 팩스 실제 발송 승인 요청\n발신: ");
    s.append(mask(request.sender.as_str()).as_str());
    s.append("\n수신: ");
    s.append(decimal(request.receivers.len() as u64).as_str());
    s.append("건\n파일: ");
    s.append(decimal(request.files.len() as u64).as_str());
    s.append("개 [");
    s.append(joined.as_str());
    s.append("]\n제목: ");
    s.append(trimmed_or(request.title.as_str(), "(제목 없음)"));
    s.append("\n요청번호: ");
    s.append(trimmed_or(request.request_num.as_str(), "(없음)"));
    s
}

/// The text that approval of a send is asked with.
pub fn approval_summary(request: &FaxRequest) -> (r: String)
    requires
        spec_mask_defined(request.sender@),
    ensures
        r@ == spec_approval_summary(*request),
{
    let names = collect_file_names(&request.files);
    summary_with_names(request, &names)
}

/// What a cancel/delete approval request names: the receipt number when
/// given, else the request number, else no target.
pub open spec fn spec_cancel_target(receipt_num: Option<Seq<char>>, request_num: Option<Seq<char>>) -> Seq<char> {
    match receipt_num {
        Some(v) => "접수번호: "@ + v,
        None => match request_num {
            Some(v) => "요청번호: "@ + v,
            None => "(대상 없음)"@,
        },
    }
}

pub open spec fn opt_str(v: Option<&str>) -> Option<Seq<char>> {
    match v {
        Some(s) => Some(s@),
        None => None,
    }
}

/// The text that approval of a cancel/delete is asked with.
pub fn cancel_approval_summary(receipt_num: Option<&str>, request_num: Option<&str>) -> (r: String)
    ensures
        r@ == "Popbill 팩스 예약 취소/삭제 승인 요청\n"@ + spec_cancel_target(
            opt_str(receipt_num),
            opt_str(request_num),
        ),
{
    let target = match receipt_num {
        Some(value) => join2("접수번호: ", value),
        None => match request_num {
            Some(value) => join2("요청번호: ", value),
            None => owned("(대상 없음)"),
        },
    };
    join2("Popbill 팩스 예약 취소/삭제 승인 요청\n", target.as_str())
}

/// One recipient as the send form lists it.
#[derive(Clone, Debug)]
pub struct ReceiverForm {
    pub rcv: String,
    pub rcvnm: Option<String>,
    pub inter_op_ref_key: Option<String>,
}

/// The JSON form part of a send: the fields that are always present, and
/// the optional ones, present only when not blank (`ads_yn` only when set).
#[derive(Clone, Debug)]
pub struct SendForm {
    pub snd: String,
    pub sndnm: Option<String>,
    pub f_cnt: usize,
    pub rcvs: Vec<ReceiverForm>,
    pub snd_dt: Option<String>,
    pub ads_yn: bool,
    pub title: Option<String>,
    pub request_num: Option<String>,
}

/// `s` when it is not blank.
pub open spec fn unless_blank(s: Seq<char>) -> Option<Seq<char>> {
    if spec_is_blank(s) {
        None
    } else {
        Some(s)
    }
}

fn unless_blank_text(s: &String) -> (r: Option<String>)
    ensures
        opt_view(r) == unless_blank(s@),
{
    if is_blank(s.as_str()) {
        None
    } else {
        Some(s.clone())
    }
}

/// Whether `f` is the form entry of the recipient `r`.
pub open spec fn receiver_form_of(f: ReceiverForm, r: FaxReceiver) -> bool {
    &&& f.rcv@ == r.receive_num@
    &&& opt_view(f.rcvnm) == unless_blank(r.receive_name@)
    &&& opt_view(f.inter_op_ref_key) == unless_blank(r.inter_op_ref_key@)
}

/// Whether `f` is the send form of the request `req`.
pub open spec fn send_form_of(f: SendForm, req: FaxRequest) -> bool {
    &&& f.snd@ == req.sender@
    &&& opt_view(f.sndnm) == unless_blank(req.sender_name@)
    &&& f.f_cnt == req.files@.len()
    &&& f.rcvs@.len() == req.receivers@.len()
    &&& forall|i: int| 0 <= i < f.rcvs@.len() ==> receiver_form_of(#[trigger] f.rcvs@[i], req.receivers@[i])
    &&& opt_view(f.snd_dt) == unless_blank(req.reserve_dt@)
    &&& f.ads_yn == req.ads_yn
    &&& opt_view(f.title) == unless_blank(req.title@)
    &&& opt_view(f.request_num) == unless_blank(req.request_num@)
}

/// The form part that a send carries for `request`.
pub fn send_form(request: &FaxRequest) -> (r: SendForm)
    ensures
        send_form_of(r, *request),
{
    let mut rcvs: Vec<ReceiverForm> = Vec::new();
    let mut i: usize = 0;
    while i < request.receivers.len()
        invariant
            i <= request.receivers.len(),
            rcvs@.len() == i,
            forall|j: int| 0 <= j < i ==> receiver_form_of(#[trigger] rcvs@[j], request.receivers@[j]),
        decreases request.receivers.len() - i,
    {
        let receiver = &request.receivers[i];
        rcvs.push(
            ReceiverForm {
                rcv: receiver.receive_num.clone(),
                rcvnm: unless_blank_text(&receiver.receive_name),
                inter_op_ref_key: unless_blank_text(&receiver.inter_op_ref_key),
            },
        );
        i = i + 1;
    }
    SendForm {
        snd: request.sender.clone(),
        sndnm: unless_blank_text(&request.sender_name),
        f_cnt: request.files.len(),
        rcvs,
        snd_dt: unless_blank_text(&request.reserve_dt),
        ads_yn: request.ads_yn,
        title: unless_blank_text(&request.title),
        request_num: unless_blank_text(&request.request_num),
    }
}

/// Why a send could not be prepared.
#[derive(Clone, Copy, PartialEq, Eq, Structural, Debug)]
pub enum UploadError {
    /// A file path has no file name that is text.
    FileNameNotUtf8,
}

/// The name under which a file is uploaded.
pub fn upload_file_name(path: &str) -> (r: Result<String, UploadError>)
    ensures
        match path_file_name(path@) {
            Some(n) => r matches Ok(s) && s@ == n,
            None => r == Err::<String, UploadError>(UploadError::FileNameNotUtf8),
        },
{
    match file_name(path) {
        Some(n) => Ok(n),
        None => Err(UploadError::FileNameNotUtf8),
    }
}

/// What the send form of a request carries: the sender number and the
/// number of files as they are; the sender name, reservation time, title
/// and request number exactly when they are not blank, and then as they
/// are written; and for each recipient, in order, its number, and its name
/// and reference key exactly when they are not blank.
pub proof fn law_send_form_fields(f: SendForm, req: FaxRequest)
    requires
        send_form_of(f, req),
    ensures
        f.snd@ == req.sender@,
        f.f_cnt == req.files@.len(),
        spec_is_blank(req.sender_name@) <==> f.sndnm is None,
        f.sndnm matches Some(n) ==> n@ == req.sender_name@,
        spec_is_blank(req.reserve_dt@) <==> f.snd_dt is None,
        f.snd_dt matches Some(d) ==> d@ == req.reserve_dt@,
        spec_is_blank(req.title@) <==> f.title is None,
        f.title matches Some(t) ==> t@ == req.title@,
        spec_is_blank(req.request_num@) <==> f.request_num is None,
        f.request_num matches Some(n) ==> n@ == req.request_num@,
        f.ads_yn == req.ads_yn,
        f.rcvs@.len() == req.receivers@.len(),
        forall|i: int|
            0 <= i < f.rcvs@.len() ==> {
                let fr = #[trigger] f.rcvs@[i];
                let r = req.receivers@[i];
                &&& fr.rcv@ == r.receive_num@
                &&& (spec_is_blank(r.receive_name@) <==> fr.rcvnm is None)
                &&& (fr.rcvnm matches Some(n) ==> n@ == r.receive_name@)
                &&& (spec_is_blank(r.inter_op_ref_key@) <==> fr.inter_op_ref_key is None)
                &&& (fr.inter_op_ref_key matches Some(k) ==> k@ == r.inter_op_ref_key@)
            },
{
    assert forall|i: int| 0 <= i < f.rcvs@.len() implies {
        let fr = #[trigger] f.rcvs@[i];
        let r = req.receivers@[i];
        &&& fr.rcv@ == r.receive_num@
        &&& (spec_is_blank(r.receive_name@) <==> fr.rcvnm is None)
        &&& (fr.rcvnm matches Some(n) ==> n@ == r.receive_name@)
        &&& (spec_is_blank(r.inter_op_ref_key@) <==> fr.inter_op_ref_key is None)
        &&& (fr.inter_op_ref_key matches Some(k) ==> k@ == r.inter_op_ref_key@)
    } by {
        assert(receiver_form_of(f.rcvs@[i], req.receivers@[i]));
    }
}

} // verus!
