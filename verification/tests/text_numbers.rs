use mvx::execute::ExecError;
use mvx::numbers::parse_u64;
use mvx::pdf::parse_pdf_page_count;
use mvx::numbers::u64_to_string;
use mvx::plan::Backend;

#[test]
fn decimal_rendering() {
    assert_eq!(u64_to_string(0), "0");
    assert_eq!(u64_to_string(7), "7");
    assert_eq!(u64_to_string(105), "105");
    assert_eq!(u64_to_string(u64::MAX), "18446744073709551615");
}

#[test]
fn decimal_parsing() {
    assert_eq!(parse_u64("0"), Some(0));
    assert_eq!(parse_u64("00105"), Some(105));
    assert_eq!(parse_u64("18446744073709551615"), Some(u64::MAX));
    assert_eq!(parse_u64("18446744073709551616"), None);
    assert_eq!(parse_u64(""), None);
    assert_eq!(parse_u64("12a"), None);
    assert_eq!(parse_u64("-3"), None);
}

#[test]
fn pdf_page_count_parsing() {
    let report = "Title:          demo\nPages:          25\nEncrypted:      no\n";
    assert_eq!(parse_pdf_page_count(report), Some(25));
    assert_eq!(parse_pdf_page_count("Pages: +3"), Some(3));
    // An unreadable value is passed over; a later clean line still counts.
    assert_eq!(parse_pdf_page_count("Pages: many\nPages: 7"), Some(7));
    assert_eq!(parse_pdf_page_count("Pages: 99999999999999999999"), None);
    assert_eq!(parse_pdf_page_count("Title: demo\n"), None);
    assert_eq!(parse_pdf_page_count(""), None);
}

#[test]
fn missing_tool_messages_carry_install_hints() {
    let err = ExecError::ToolMissing {
        tool: Backend::LibreOffice,
    };
    assert_eq!(
        err.message(),
        "LibreOffice not found; install libreoffice (e.g., apt install libreoffice)"
    );
    let err = ExecError::ToolMissing {
        tool: Backend::Ffmpeg,
    };
    assert_eq!(
        err.message(),
        "ffmpeg not found; install it (e.g., apt install ffmpeg)"
    );
}
