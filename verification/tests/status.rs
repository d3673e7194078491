use castor::status::{Kind, Status, StatusError};

#[test]
fn success_carries_the_media_type() {
    assert_eq!(Status::from_str("20 text/gemini"), Ok(Status::Success("text/gemini".to_string())));
    assert_eq!(
        Status::from_str("20 image/png; charset=x"),
        Ok(Status::Success("image/png; charset=x".to_string()))
    );
    assert_eq!(Status::from_str("21 text/plain"), Ok(Status::Success("text/plain".to_string())));
}

#[test]
fn blank_success_is_gemini_text() {
    assert_eq!(Status::from_str("20 "), Ok(Status::Success("text/gemini".to_string())));
    assert_eq!(Status::from_str("20  \t"), Ok(Status::Success("text/gemini".to_string())));
    assert_eq!(Status::from_str("10 "), Ok(Status::Input("".to_string())));
}

#[test]
fn redirects() {
    assert_eq!(
        Status::from_str("30 gemini://h.org/x"),
        Ok(Status::RedirectTemporary("gemini://h.org/x".to_string()))
    );
    assert_eq!(Status::from_str("31 /y"), Ok(Status::RedirectPermanent("/y".to_string())));
    assert_eq!(Status::from_str("39 /z"), Ok(Status::RedirectTemporary("/z".to_string())));
}

#[test]
fn failures() {
    assert_eq!(Status::from_str("51 not found"), Ok(Status::NotFound("not found".to_string())));
    assert_eq!(Status::from_str("52 gone"), Ok(Status::Gone("gone".to_string())));
    assert_eq!(Status::from_str("44 60"), Ok(Status::SlowDown("60".to_string())));
    let table = [
        ("10", Kind::Input),
        ("40", Kind::TemporaryFailure),
        ("41", Kind::ServerUnavailable),
        ("42", Kind::CGIError),
        ("43", Kind::ProxyError),
        ("44", Kind::SlowDown),
        ("45", Kind::TemporaryFailure),
        ("50", Kind::PermanentFailure),
        ("51", Kind::NotFound),
        ("52", Kind::Gone),
        ("53", Kind::ProxyRequestRefused),
        ("59", Kind::BadRequest),
        ("58", Kind::PermanentFailure),
        ("60", Kind::ClientCertificateRequired),
        ("61", Kind::TransientCertificateRequired),
        ("62", Kind::AuthorisedCertificatedRequired),
        ("63", Kind::CertificateNotAccepted),
        ("64", Kind::FutureCertificateRejected),
        ("65", Kind::ExpiredCertificateRejected),
        ("69", Kind::ClientCertificateRequired),
        ("00", Kind::Unknown),
        ("99", Kind::Unknown),
    ];
    for (code, kind) in table {
        let status = Status::from_str(&format!("{} why", code)).unwrap();
        assert_eq!(status.kind(), kind);
        assert_eq!(status.detail(), "why");
        assert_eq!(Status::of(kind, "why".to_string()), status);
    }
}

#[test]
fn malformed_lines() {
    for line in ["", "2", "20", "hello", "2x text/gemini", "200 ok", "20\ttext/gemini", " 20 x", "٢٠ x"] {
        assert_eq!(Status::from_str(line), Err(StatusError::Malformed));
    }
}
