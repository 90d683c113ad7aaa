use smash::commands::utils::{
    check_pdf, choose_output, file_result, generate_output_path, validate_pdf, FileResult,
};
use smash::paths::{derived_file_name, required_directory, stem_of};

#[test]
fn output_path_is_beside_the_input() {
    assert_eq!(
        generate_output_path("/home/u/doc.pdf", "-compressed"),
        "/home/u/doc-compressed.pdf"
    );
    assert_eq!(generate_output_path("dir/report.PDF", "-protected"), "dir/report-protected.pdf");
    assert_eq!(generate_output_path("/doc.pdf", "-unlocked"), "/doc-unlocked.pdf");
}

#[test]
fn output_path_of_a_bare_file_name() {
    assert_eq!(generate_output_path("doc.pdf", "-compressed"), "doc-compressed.pdf");
    assert_eq!(generate_output_path("archive.tar.gz", "-x"), "archive.tar-x.pdf");
    assert_eq!(generate_output_path(".hidden", "-x"), ".hidden-x.pdf");
    assert_eq!(generate_output_path("noext", ""), "noext.pdf");
}

#[test]
fn output_path_without_stem_or_parent() {
    assert_eq!(generate_output_path("", "-x"), "./-x.pdf");
    assert_eq!(generate_output_path("/", "-x"), "./-x.pdf");
    assert_eq!(generate_output_path("a/..", "-x"), "a/-x.pdf");
}

#[test]
fn stem_is_the_name_without_extension() {
    assert_eq!(stem_of("/tmp/a.b.pdf"), "a.b");
    assert_eq!(stem_of("a.pdf"), "a");
    assert_eq!(stem_of("dir/"), "dir");
    assert_eq!(stem_of(""), "");
    assert_eq!(stem_of(".."), "");
}

#[test]
fn directory_needed_for_a_path() {
    assert_eq!(required_directory("/tmp/out/m.pdf"), Some("/tmp/out".to_string()));
    assert_eq!(required_directory("out/m.pdf"), Some("out".to_string()));
    assert_eq!(required_directory("/m.pdf"), Some("/".to_string()));
    assert_eq!(required_directory("m.pdf"), None);
    assert_eq!(required_directory("/"), None);
    assert_eq!(required_directory(""), None);
}

#[test]
fn derived_name_is_stem_suffix_extension() {
    assert_eq!(derived_file_name("doc", "-compressed"), "doc-compressed.pdf");
    assert_eq!(derived_file_name("", ""), ".pdf");
}

#[test]
fn chosen_output_prefers_the_request() {
    assert_eq!(choose_output(Some("/x/y.pdf".to_string()), "/a/b.pdf", "-s"), "/x/y.pdf");
    assert_eq!(choose_output(Some("".to_string()), "/a/b.pdf", "-s"), "");
    assert_eq!(choose_output(None, "/a/b.pdf", "-s"), "/a/b-s.pdf");
}

#[test]
fn validation_accepts_existing_pdfs() {
    assert_eq!(validate_pdf("a.pdf", true), Ok(()));
    assert_eq!(validate_pdf("/x/y/a.PDF", true), Ok(()));
    assert_eq!(validate_pdf("a.b.PdF", true), Ok(()));
    assert_eq!(validate_pdf("dir.d/a.pdf/", true), Ok(()));
}

#[test]
fn validation_reports_missing_file_first() {
    assert_eq!(validate_pdf("a.pdf", false), Err("File not found: a.pdf".to_string()));
    assert_eq!(validate_pdf("/x/a.txt", false), Err("File not found: /x/a.txt".to_string()));
    assert_eq!(validate_pdf("", false), Err("File not found: ".to_string()));
}

#[test]
fn validation_rejects_other_extensions() {
    let not_pdf = Err("File is not a PDF".to_string());
    assert_eq!(validate_pdf("a.txt", true), not_pdf);
    assert_eq!(validate_pdf("a", true), not_pdf);
    assert_eq!(validate_pdf(".pdf", true), not_pdf);
    assert_eq!(validate_pdf("a.pdf.bak", true), not_pdf);
    assert_eq!(validate_pdf("a.pdfx", true), not_pdf);
    assert_eq!(validate_pdf("a.pd", true), not_pdf);
    assert_eq!(validate_pdf("a.pdf/..", true), not_pdf);
    assert_eq!(validate_pdf("", true), not_pdf);
}

#[test]
fn check_on_known_extension() {
    assert_eq!(check_pdf("p", true, Some("pdf")), Ok(()));
    assert_eq!(check_pdf("p", true, Some("Pdf")), Ok(()));
    assert_eq!(check_pdf("p", true, Some("txt")), Err("File is not a PDF".to_string()));
    assert_eq!(check_pdf("p", true, None), Err("File is not a PDF".to_string()));
    assert_eq!(check_pdf("p", false, Some("pdf")), Err("File not found: p".to_string()));
    assert_eq!(check_pdf("p", false, None), Err("File not found: p".to_string()));
}

#[test]
fn file_record_carries_size_or_reason() {
    assert_eq!(
        file_result("/o.pdf".to_string(), Ok(1234)),
        Ok(FileResult { output_path: "/o.pdf".to_string(), size: 1234 })
    );
    assert_eq!(
        file_result("/o.pdf".to_string(), Err("No such file or directory (os error 2)".to_string())),
        Err("Failed to read output file: No such file or directory (os error 2)".to_string())
    );
}
