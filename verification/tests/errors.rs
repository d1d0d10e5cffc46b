use cryptography_error::backend::OpenSSLError;
use cryptography_error::error::CryptographyError;
use cryptography_error::host::PyException;
use cryptography_error::parse::{ParseError, ParseLocation, WriteError};

#[test]
fn test_cryptographyerror_from() {
    let e: CryptographyError = WriteError::AllocationError.into();
    assert!(matches!(
        e,
        CryptographyError::Asn1Write(WriteError::AllocationError)
    ));
    let py_e: PyException = e.materialize();
    assert!(matches!(py_e, PyException::MemoryError(_)));

    let e: CryptographyError =
        PyException::TypeError("'NoneType' object cannot be converted to 'abc'".to_string()).into();
    assert!(matches!(e, CryptographyError::Py(_)));
}

#[test]
fn test_cryptographyerror_add_location() {
    let py_err = PyException::ValueError("Error!".to_string());
    let _ = CryptographyError::Py(py_err).add_location(ParseLocation::Field("meh".to_string()));

    let asn1_write_err = WriteError::AllocationError;
    let _ = CryptographyError::Asn1Write(asn1_write_err)
        .add_location(ParseLocation::Field("meh".to_string()));

    let openssl_error: Vec<OpenSSLError> = Vec::new();
    let _ =
        CryptographyError::from(openssl_error).add_location(ParseLocation::Field("meh".to_string()));
}

#[test]
fn add_location_appends_in_order() {
    let p = ParseError::new("invalid value".to_string());
    let e = CryptographyError::Asn1Parse(p);
    let e = e.add_location(ParseLocation::Field("field:signature".to_string()));
    let e = e.add_location(ParseLocation::Field("field:certificate".to_string()));
    match &e {
        CryptographyError::Asn1Parse(q) => {
            assert_eq!(
                q.locations,
                vec![
                    ParseLocation::Field("field:signature".to_string()),
                    ParseLocation::Field("field:certificate".to_string()),
                ]
            );
            assert_eq!(q.description, "invalid value");
        }
        _ => panic!("variant changed"),
    }
    let py_e = e.materialize();
    match py_e {
        PyException::ValueError(m) => assert_eq!(
            m,
            "error parsing asn1 value: invalid value (location: field:signature -> field:certificate)"
        ),
        _ => panic!("wrong exception kind"),
    }
}

#[test]
fn add_location_is_identity_elsewhere() {
    let loc = ParseLocation::Field("meh".to_string());
    let e = CryptographyError::Asn1Write(WriteError::AllocationError);
    assert_eq!(e.clone().add_location(loc.clone()), e);

    let e = CryptographyError::Py(PyException::ValueError("Error!".to_string()));
    assert_eq!(e.clone().add_location(loc.clone()), e);

    let e = CryptographyError::OpenSSL(vec![OpenSSLError {
        code: 5,
        reason: "oops".to_string(),
    }]);
    assert_eq!(e.clone().add_location(loc), e);
}

#[test]
fn allocation_failure_is_memory_error() {
    let e = CryptographyError::Asn1Write(WriteError::AllocationError);
    match e.materialize() {
        PyException::MemoryError(m) => assert_eq!(
            m,
            "failed to allocate memory while performing ASN.1 serialization"
        ),
        _ => panic!("wrong exception kind"),
    }
}

#[test]
fn empty_backend_stack_yields_empty_record_list() {
    let e = CryptographyError::OpenSSL(Vec::new());
    match e.materialize() {
        PyException::InternalError(m, records) => {
            assert!(m.contains("Unknown OpenSSL error"));
            assert!(records.is_empty());
        }
        _ => panic!("wrong exception kind"),
    }
}

#[test]
fn backend_records_survive_in_order() {
    let records = vec![
        OpenSSLError {
            code: 101,
            reason: "bad padding".to_string(),
        },
        OpenSSLError {
            code: 202,
            reason: "key mismatch".to_string(),
        },
    ];
    let e: CryptographyError = records.clone().into();
    assert!(matches!(e, CryptographyError::OpenSSL(_)));
    match e.materialize() {
        PyException::InternalError(_, out) => assert_eq!(out, records),
        _ => panic!("wrong exception kind"),
    }
}

#[test]
fn pem_failure_cites_documentation() {
    let e = CryptographyError::pem_load_error("MalformedFraming".to_string());
    match e.materialize() {
        PyException::ValueError(m) => {
            assert!(m.contains(
                "https://cryptography.io/en/latest/faq/#why-can-t-i-import-my-pem-file"
            ));
            assert!(m.ends_with("MalformedFraming"));
        }
        _ => panic!("wrong exception kind"),
    }
}

#[test]
fn native_pem_failure_cites_documentation() {
    let native = pem::parse("definitely not a pem document").unwrap_err();
    let e = CryptographyError::from_pem_error(&native);
    match e.materialize() {
        PyException::ValueError(m) => {
            assert!(m.contains(
                "https://cryptography.io/en/latest/faq/#why-can-t-i-import-my-pem-file"
            ));
            assert!(m.len() > "Unable to load PEM file. See https://cryptography.io/en/latest/faq/#why-can-t-i-import-my-pem-file for more details. ".len());
        }
        _ => panic!("wrong exception kind"),
    }
}

#[test]
fn native_backend_stack_capture() {
    let stack = openssl::error::ErrorStack::get();
    assert!(stack.errors().is_empty());
    let e = CryptographyError::from_openssl_stack(&stack);
    match e {
        CryptographyError::OpenSSL(records) => assert!(records.is_empty()),
        _ => panic!("wrong variant"),
    }
}

#[test]
fn native_backend_stack_capture_nonempty() {
    let stack = openssl::rsa::Rsa::private_key_from_pem(b"not a key").unwrap_err();
    assert!(!stack.errors().is_empty());
    let e = CryptographyError::from_openssl_stack(&stack);
    match e {
        CryptographyError::OpenSSL(records) => {
            assert_eq!(records.len(), stack.errors().len());
            for (record, native) in records.iter().zip(stack.errors()) {
                assert_eq!(record.code, native.code() as u64);
                assert_eq!(record.reason, native.reason().unwrap_or(""));
            }
        }
        _ => panic!("wrong variant"),
    }
}

#[test]
fn parse_failure_message_without_path() {
    let e = CryptographyError::Asn1Parse(ParseError::new("short data".to_string()));
    match e.materialize() {
        PyException::ValueError(m) => assert_eq!(m, "error parsing asn1 value: short data"),
        _ => panic!("wrong exception kind"),
    }
}

#[test]
fn parse_failure_message_renders_indices() {
    let p = ParseError::new("short data".to_string())
        .add_location(ParseLocation::Index(0))
        .add_location(ParseLocation::Index(12))
        .add_location(ParseLocation::Field("x".to_string()));
    let e = CryptographyError::Asn1Parse(p);
    match e.materialize() {
        PyException::ValueError(m) => {
            assert_eq!(m, "error parsing asn1 value: short data (location: 0 -> 12 -> x)")
        }
        _ => panic!("wrong exception kind"),
    }
}

#[test]
fn parse_failure_message_renders_large_index() {
    let p = ParseError::new("overflow".to_string())
        .add_location(ParseLocation::Index(18446744073709551615));
    let e = CryptographyError::Asn1Parse(p);
    match e.materialize() {
        PyException::ValueError(m) => assert_eq!(
            m,
            "error parsing asn1 value: overflow (location: 18446744073709551615)"
        ),
        _ => panic!("wrong exception kind"),
    }
}

#[test]
fn host_exception_passes_through_unchanged() {
    let x = PyException::ValueError("Error!".to_string());
    let e: CryptographyError = x.clone().into();
    assert!(matches!(e, CryptographyError::Py(_)));
    assert_eq!(e.materialize(), x);
}

#[test]
fn absorption_lands_in_dedicated_variants() {
    let p = ParseError::new("bad".to_string());
    let e: CryptographyError = p.clone().into();
    assert_eq!(e, CryptographyError::Asn1Parse(p));

    let w = WriteError::AllocationError;
    let e: CryptographyError = w.into();
    assert_eq!(e, CryptographyError::Asn1Write(w));
}
