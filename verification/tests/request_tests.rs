use popbill_fax::request::{
    approval_summary, cancel_approval_summary, send_form, upload_file_name, validate_fax_request,
    FaxReceiver, FaxRequest, FaxRequestError, FileStatus, UploadError,
};

fn receiver(num: &str) -> FaxReceiver {
    FaxReceiver { receive_num: num.to_string(), receive_name: String::new(), inter_op_ref_key: String::new() }
}

fn request() -> FaxRequest {
    FaxRequest {
        sender: "0212345678".to_string(),
        sender_name: "발신자명".to_string(),
        title: "  Fax title ".to_string(),
        ads_yn: false,
        reserve_dt: String::new(),
        request_num: String::new(),
        receivers: vec![receiver("0211112222")],
        files: vec!["/tmp/a/doc.pdf".to_string()],
    }
}

fn ok_statuses(r: &FaxRequest) -> Vec<FileStatus> {
    vec![FileStatus::RegularFile; r.files.len()]
}

#[test]
fn valid_request_passes() {
    let r = request();
    assert!(validate_fax_request(&r, &ok_statuses(&r)).is_ok());
}

#[test]
fn request_checks_come_in_order() {
    let mut r = request();
    r.sender = "  ".to_string();
    r.receivers.clear();
    assert!(matches!(validate_fax_request(&r, &ok_statuses(&r)), Err(FaxRequestError::SenderRequired)));

    let mut r = request();
    r.receivers.clear();
    assert!(matches!(validate_fax_request(&r, &ok_statuses(&r)), Err(FaxRequestError::ReceiversEmpty)));

    let mut r = request();
    r.receivers = vec![receiver("1"); 1001];
    assert!(matches!(validate_fax_request(&r, &ok_statuses(&r)), Err(FaxRequestError::TooManyReceivers)));
    r.receivers.truncate(1000);
    assert!(validate_fax_request(&r, &ok_statuses(&r)).is_ok());

    let mut r = request();
    r.receivers = vec![receiver("1"), receiver(" "), receiver("")];
    assert!(matches!(validate_fax_request(&r, &ok_statuses(&r)), Err(FaxRequestError::ReceiveNumRequired(1))));

    let mut r = request();
    r.files.clear();
    assert!(matches!(validate_fax_request(&r, &ok_statuses(&r)), Err(FaxRequestError::FilesEmpty)));

    let mut r = request();
    r.files = vec!["f".to_string(); 21];
    assert!(matches!(validate_fax_request(&r, &ok_statuses(&r)), Err(FaxRequestError::TooManyFiles)));
}

#[test]
fn file_problems_name_the_first_bad_file() {
    let mut r = request();
    r.files = vec!["a".to_string(), "b".to_string(), "c".to_string()];
    let st = vec![FileStatus::RegularFile, FileStatus::NotRegularFile, FileStatus::Missing];
    match validate_fax_request(&r, &st) {
        Err(FaxRequestError::NotRegularFile(1, p)) => assert_eq!(p, "b"),
        other => panic!("unexpected {other:?}"),
    }
    let st = vec![FileStatus::RegularFile, FileStatus::RegularFile, FileStatus::Missing];
    match validate_fax_request(&r, &st) {
        Err(FaxRequestError::FileNotFound(2, p)) => assert_eq!(p, "c"),
        other => panic!("unexpected {other:?}"),
    }
}

#[test]
fn send_approval_summary_text() {
    let mut r = request();
    r.files = vec![
        "/x/1.pdf".to_string(),
        "/x/2.pdf".to_string(),
        "/x/..".to_string(),
        "/x/3.pdf".to_string(),
        "4.pdf".to_string(),
        "/x/5.pdf".to_string(),
        "/x/6.pdf".to_string(),
    ];
    r.receivers = vec![receiver("1"), receiver("2")];
    let s = approval_summary(&r);
    assert_eq!(
        s,
        "Popbill 팩스 실제 발송 승인 요청\n발신: 0212...5678\n수신: 2건\n파일: 7개 [1.pdf, 2.pdf, 3.pdf, 4.pdf, 5.pdf]\n제목: Fax title\n요청번호: (없음)"
    );
    r.title = " ".to_string();
    r.request_num = " R-1 ".to_string();
    r.sender = "021".to_string();
    r.files = vec![];
    let s = approval_summary(&r);
    assert_eq!(s, "Popbill 팩스 실제 발송 승인 요청\n발신: ********\n수신: 2건\n파일: 0개 []\n제목: (제목 없음)\n요청번호: R-1");
}

#[test]
fn cancel_approval_summary_names_its_target() {
    assert_eq!(cancel_approval_summary(Some("R1"), Some("Q1")), "Popbill 팩스 예약 취소/삭제 승인 요청\n접수번호: R1");
    assert_eq!(cancel_approval_summary(None, Some("Q1")), "Popbill 팩스 예약 취소/삭제 승인 요청\n요청번호: Q1");
    assert_eq!(cancel_approval_summary(None, None), "Popbill 팩스 예약 취소/삭제 승인 요청\n(대상 없음)");
}

#[test]
fn send_form_keeps_only_non_blank_optionals() {
    let mut r = request();
    r.sender_name = " ".to_string();
    r.reserve_dt = "20260601120000".to_string();
    r.ads_yn = true;
    r.request_num = "REQ".to_string();
    r.receivers = vec![FaxReceiver {
        receive_num: "0211112222".to_string(),
        receive_name: "수신자".to_string(),
        inter_op_ref_key: "  ".to_string(),
    }];
    let f = send_form(&r);
    assert_eq!(f.snd, "0212345678");
    assert_eq!(f.sndnm, None);
    assert_eq!(f.f_cnt, 1);
    assert_eq!(f.snd_dt.as_deref(), Some("20260601120000"));
    assert!(f.ads_yn);
    assert_eq!(f.title.as_deref(), Some("  Fax title "));
    assert_eq!(f.request_num.as_deref(), Some("REQ"));
    assert_eq!(f.rcvs.len(), 1);
    assert_eq!(f.rcvs[0].rcv, "0211112222");
    assert_eq!(f.rcvs[0].rcvnm.as_deref(), Some("수신자"));
    assert_eq!(f.rcvs[0].inter_op_ref_key, None);
}

#[test]
fn upload_names_are_file_names() {
    assert_eq!(upload_file_name("/tmp/a/doc.pdf").unwrap(), "doc.pdf");
    assert_eq!(upload_file_name("/tmp/..").unwrap_err(), UploadError::FileNameNotUtf8);
}
