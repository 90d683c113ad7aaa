use smash::commands::compress::{
    check_ghostscript, compress_job, compress_pdf, compression_result, preset_is_valid,
    CompressionJob,
};
use smash::commands::merge::{first_failure, merge_job, merge_pdfs, validate_inputs};
use smash::commands::protect::{
    check_qpdf, protect_job, protect_pdf, unlock_job, unlock_pdf, FileJob,
};
use smash::commands::utils::CompressionResult;
use smash::ghostscript::{compress, get_page_count, merge};
use smash::commands::split::{get_pdf_page_count, page_count_job};
use smash::locate::{Host, Platform};
use smash::qpdf::{decrypt, encrypt};

fn linux_host() -> Host {
    Host {
        platform: Platform::Linux,
        ghostscript: Some("/usr/bin/gs".to_string()),
        qpdf: Some("/usr/bin/qpdf".to_string()),
    }
}

fn bare_host() -> Host {
    Host { platform: Platform::Windows, ghostscript: None, qpdf: None }
}

fn paths(items: &[&str]) -> Vec<String> {
    let mut v = Vec::new();
    for s in items {
        v.push(s.to_string());
    }
    v
}

#[test]
fn presets_are_the_four() {
    assert!(preset_is_valid("screen"));
    assert!(preset_is_valid("ebook"));
    assert!(preset_is_valid("printer"));
    assert!(preset_is_valid("prepress"));
    assert!(!preset_is_valid("Screen"));
    assert!(!preset_is_valid("default"));
    assert!(!preset_is_valid(""));
    assert!(!preset_is_valid("screen "));
    assert!(!preset_is_valid("/screen"));
}

#[test]
fn compress_request_that_passes() {
    let host = linux_host();
    let job = compress_pdf(&host, "/d/a.pdf", true, Ok(5000), None, "screen");
    assert_eq!(
        job,
        Ok(CompressionJob {
            output_path: "/d/a-compressed.pdf".to_string(),
            original_size: 5000,
            invocation: compress(&host, "/d/a.pdf", "/d/a-compressed.pdf", "screen").unwrap(),
        })
    );
    let job = compress_pdf(&host, "/d/a.pdf", true, Ok(0), Some("/o/b.pdf".to_string()), "prepress");
    assert_eq!(
        job,
        Ok(CompressionJob {
            output_path: "/o/b.pdf".to_string(),
            original_size: 0,
            invocation: compress(&host, "/d/a.pdf", "/o/b.pdf", "prepress").unwrap(),
        })
    );
}

#[test]
fn compress_rejects_unknown_preset_before_anything_runs() {
    let expected = Err(
        "Invalid preset 'tiny'. Valid options: [\"screen\", \"ebook\", \"printer\", \"prepress\"]"
            .to_string(),
    );
    assert_eq!(compress_pdf(&linux_host(), "a.pdf", true, Ok(1), None, "tiny"), expected);
    assert_eq!(compress_pdf(&bare_host(), "a.pdf", true, Err("x".to_string()), None, "tiny"), expected);
    let valid = ["screen", "ebook", "printer", "prepress"];
    assert_eq!(
        compress_pdf(&linux_host(), "a.pdf", true, Ok(1), None, "EBOOK"),
        Err(format!("Invalid preset '{}'. Valid options: {:?}", "EBOOK", valid))
    );
}

#[test]
fn compress_failures_in_order() {
    let size_error = Err("denied".to_string());
    assert_eq!(
        compress_pdf(&bare_host(), "a.pdf", false, size_error.clone(), None, "tiny"),
        Err("File not found: a.pdf".to_string())
    );
    assert_eq!(
        compress_pdf(&bare_host(), "a.doc", true, size_error.clone(), None, "tiny"),
        Err("File is not a PDF".to_string())
    );
    assert_eq!(
        compress_pdf(&bare_host(), "a.pdf", true, size_error.clone(), None, "ebook"),
        Err("Failed to read input file: denied".to_string())
    );
    assert_eq!(
        compress_pdf(&bare_host(), "a.pdf", true, Ok(9), None, "ebook"),
        Err(
            "Ghostscript not found. Download from: https://ghostscript.com/releases/gsdnld.html"
                .to_string()
        )
    );
}

#[test]
fn compress_decision_on_given_validation() {
    let host = linux_host();
    assert_eq!(
        compress_job(&host, "a", Err("no".to_string()), Ok(1), "o".to_string(), "ebook"),
        Err("no".to_string())
    );
    assert_eq!(
        compress_job(&host, "a", Ok(()), Ok(1), "o".to_string(), "ebook"),
        Ok(CompressionJob {
            output_path: "o".to_string(),
            original_size: 1,
            invocation: compress(&host, "a", "o", "ebook").unwrap(),
        })
    );
}

#[test]
fn compression_record_carries_sizes_or_reason() {
    assert_eq!(
        compression_result("/o.pdf".to_string(), 1000, Ok(250)),
        Ok(CompressionResult {
            output_path: "/o.pdf".to_string(),
            original_size: 1000,
            compressed_size: 250,
        })
    );
    assert_eq!(
        compression_result("/o.pdf".to_string(), 0, Ok(10)),
        Ok(CompressionResult {
            output_path: "/o.pdf".to_string(),
            original_size: 0,
            compressed_size: 10,
        })
    );
    assert_eq!(
        compression_result("/o.pdf".to_string(), 1000, Err("gone".to_string())),
        Err("Failed to read output file: gone".to_string())
    );
}

#[test]
fn tools_shown_for_display() {
    assert_eq!(check_ghostscript(&linux_host()), Ok("/usr/bin/gs".to_string()));
    assert_eq!(
        check_ghostscript(&bare_host()),
        Err("Ghostscript not found. Please install Ghostscript.".to_string())
    );
    assert_eq!(check_qpdf(&linux_host()), Ok("/usr/bin/qpdf".to_string()));
    assert_eq!(
        check_qpdf(&bare_host()),
        Err("qpdf not found. Please install qpdf for password protection features.".to_string())
    );
}

#[test]
fn first_failure_is_the_first_in_order() {
    assert_eq!(first_failure(&Vec::new()), Ok(()));
    assert_eq!(first_failure(&vec![Ok(()), Ok(())]), Ok(()));
    assert_eq!(
        first_failure(&vec![Ok(()), Err("b".to_string()), Err("c".to_string())]),
        Err("b".to_string())
    );
    assert_eq!(first_failure(&vec![Err("a".to_string()), Ok(())]), Err("a".to_string()));
}

#[test]
fn inputs_are_validated_in_order() {
    assert_eq!(validate_inputs(&paths(&["a.pdf", "b.pdf"]), &vec![true, true]), Ok(()));
    assert_eq!(validate_inputs(&Vec::new(), &Vec::new()), Ok(()));
    assert_eq!(
        validate_inputs(&paths(&["a.pdf", "b.txt", "c.pdf"]), &vec![true, true, false]),
        Err("File is not a PDF".to_string())
    );
    assert_eq!(
        validate_inputs(&paths(&["a.pdf", "b.txt", "c.pdf"]), &vec![true, false, false]),
        Err("File not found: b.txt".to_string())
    );
    assert_eq!(
        validate_inputs(&paths(&["a.pdf", "b.pdf"]), &vec![true]),
        Err("File not found: b.pdf".to_string())
    );
}

#[test]
fn merge_request_that_passes() {
    let host = linux_host();
    let inputs = paths(&["/d/a.pdf", "/d/b.pdf"]);
    assert_eq!(
        merge_pdfs(&host, &inputs, &vec![true, true], "/o/m.pdf", true),
        merge(&host, &inputs, "/o/m.pdf")
    );
    assert_eq!(
        merge_pdfs(&host, &inputs, &vec![true, true], "m.pdf", false),
        merge(&host, &inputs, "m.pdf")
    );
    assert_eq!(
        merge_pdfs(&host, &inputs, &vec![true, true], "/", false),
        merge(&host, &inputs, "/")
    );
}

#[test]
fn merge_needs_two_inputs() {
    let expected = Err("At least 2 PDF files are required for merging".to_string());
    assert_eq!(merge_pdfs(&linux_host(), &Vec::new(), &Vec::new(), "/o/m.pdf", true), expected);
    assert_eq!(
        merge_pdfs(&linux_host(), &paths(&["a.pdf"]), &vec![true], "/o/m.pdf", true),
        expected
    );
    assert_eq!(
        merge_pdfs(&bare_host(), &paths(&["a.txt"]), &vec![false], "/nowhere/m.pdf", false),
        expected
    );
}

#[test]
fn merge_failures_in_order() {
    let inputs = paths(&["a.pdf", "b.doc", "c.pdf"]);
    assert_eq!(
        merge_pdfs(&bare_host(), &inputs, &vec![true, true, false], "/nowhere/m.pdf", false),
        Err("File is not a PDF".to_string())
    );
    let inputs = paths(&["a.pdf", "b.pdf"]);
    assert_eq!(
        merge_pdfs(&bare_host(), &inputs, &vec![true, true], "/nowhere/m.pdf", false),
        Err("Output directory does not exist: /nowhere".to_string())
    );
    assert_eq!(
        merge_pdfs(&bare_host(), &inputs, &vec![true, true], "/nowhere/m.pdf", true),
        Err(
            "Ghostscript not found. Download from: https://ghostscript.com/releases/gsdnld.html"
                .to_string()
        )
    );
}

#[test]
fn merge_decision_on_given_validation() {
    let host = linux_host();
    let inputs = paths(&["a", "b"]);
    assert_eq!(
        merge_job(&host, &inputs, Err("bad".to_string()), "o", None, false),
        Err("bad".to_string())
    );
    assert_eq!(
        merge_job(&host, &inputs, Ok(()), "o", Some("d".to_string()), false),
        Err("Output directory does not exist: d".to_string())
    );
    assert_eq!(
        merge_job(&host, &inputs, Ok(()), "o", Some("".to_string()), false),
        merge(&host, &inputs, "o")
    );
    assert_eq!(merge_job(&host, &inputs, Ok(()), "o", None, false), merge(&host, &inputs, "o"));
}

#[test]
fn protect_request_that_passes() {
    let host = linux_host();
    assert_eq!(
        protect_pdf(&host, "/d/a.pdf", true, None, "pw", None),
        Ok(FileJob {
            output_path: "/d/a-protected.pdf".to_string(),
            invocation: encrypt(&host, "/d/a.pdf", "/d/a-protected.pdf", "pw", "pw").unwrap(),
        })
    );
    assert_eq!(
        protect_pdf(
            &host,
            "/d/a.pdf",
            true,
            Some("/o/s.pdf".to_string()),
            "pw",
            Some("owner".to_string())
        ),
        Ok(FileJob {
            output_path: "/o/s.pdf".to_string(),
            invocation: encrypt(&host, "/d/a.pdf", "/o/s.pdf", "pw", "owner").unwrap(),
        })
    );
    assert_eq!(
        protect_pdf(&host, "a.pdf", true, None, "pw", Some("".to_string())),
        Ok(FileJob {
            output_path: "a-protected.pdf".to_string(),
            invocation: encrypt(&host, "a.pdf", "a-protected.pdf", "pw", "").unwrap(),
        })
    );
}

#[test]
fn protect_failures_in_order() {
    assert_eq!(
        protect_pdf(&bare_host(), "a.pdf", false, None, "", None),
        Err("File not found: a.pdf".to_string())
    );
    assert_eq!(
        protect_pdf(&bare_host(), "a.pdf", true, None, "", Some("owner".to_string())),
        Err("Password cannot be empty".to_string())
    );
    assert_eq!(
        protect_pdf(&bare_host(), "a.pdf", true, None, "pw", None),
        Err("qpdf not found. Download from: https://github.com/qpdf/qpdf/releases".to_string())
    );
}

#[test]
fn protect_decision_on_given_validation() {
    let host = linux_host();
    assert_eq!(
        protect_job(&host, "a", Err("bad".to_string()), "o".to_string(), "pw", None),
        Err("bad".to_string())
    );
    assert_eq!(
        protect_job(&host, "a", Ok(()), "o".to_string(), "", None),
        Err("Password cannot be empty".to_string())
    );
    assert_eq!(
        protect_job(&host, "a", Ok(()), "o".to_string(), "pw", None),
        Ok(FileJob {
            output_path: "o".to_string(),
            invocation: encrypt(&host, "a", "o", "pw", "pw").unwrap(),
        })
    );
}

#[test]
fn unlock_request_and_failures() {
    let host = linux_host();
    assert_eq!(
        unlock_pdf(&host, "/d/a.pdf", true, None, "pw"),
        Ok(FileJob {
            output_path: "/d/a-unlocked.pdf".to_string(),
            invocation: decrypt(&host, "/d/a.pdf", "/d/a-unlocked.pdf", "pw").unwrap(),
        })
    );
    assert_eq!(
        unlock_pdf(&host, "/d/a.pdf", true, Some("o.pdf".to_string()), ""),
        Ok(FileJob {
            output_path: "o.pdf".to_string(),
            invocation: decrypt(&host, "/d/a.pdf", "o.pdf", "").unwrap(),
        })
    );
    assert_eq!(
        unlock_pdf(&bare_host(), "a.txt", true, None, "pw"),
        Err("File is not a PDF".to_string())
    );
    assert_eq!(
        unlock_pdf(&bare_host(), "a.pdf", true, None, "pw"),
        Err("qpdf not found. Download from: https://github.com/qpdf/qpdf/releases".to_string())
    );
    assert_eq!(
        unlock_job(&host, "a", Err("bad".to_string()), "o".to_string(), "pw"),
        Err("bad".to_string())
    );
}

#[test]
fn page_count_request_and_failures() {
    let host = linux_host();
    assert_eq!(get_pdf_page_count(&host, "/d/a.pdf", true), get_page_count(&host, "/d/a.pdf"));
    assert_eq!(
        get_pdf_page_count(&host, "/d/a.pdf", false),
        Err("File not found: /d/a.pdf".to_string())
    );
    assert_eq!(
        get_pdf_page_count(&bare_host(), "/d/a.pdf", true),
        Err(
            "Ghostscript not found. Download from: https://ghostscript.com/releases/gsdnld.html"
                .to_string()
        )
    );
    assert_eq!(page_count_job(&host, "a", Err("bad".to_string())), Err("bad".to_string()));
    assert_eq!(page_count_job(&host, "a", Ok(())), get_page_count(&host, "a"));
}
