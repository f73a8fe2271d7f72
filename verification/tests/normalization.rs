use greco::address::Address;
use greco::pandoc::Downloaded;
use greco::readme::{
    native_text, normalize, route, utf8_text, ReadmeSource, Route, Step, TextFetch,
};
use greco::Error;

fn inline(file_name: &str, content: &str) -> ReadmeSource {
    ReadmeSource::Inline { file_name: file_name.to_string(), content: content.to_string() }
}

fn remote(url: &str) -> ReadmeSource {
    ReadmeSource::Remote { resolved_url: url.to_string() }
}

fn texts(values: &[&str]) -> Vec<String> {
    values.iter().map(|value| value.to_string()).collect()
}

#[test]
fn the_route_depends_on_extension_and_source() {
    assert_eq!(route("md", &inline("README.md", "")), Route::NativeInline);
    assert_eq!(route("md", &remote("https://example.com/README.md")), Route::NativeRemote);
    assert_eq!(route("rst", &inline("README.rst", "")), Route::ForeignInline);
    assert_eq!(route("rst", &remote("https://example.com/README.rst")), Route::ForeignRemote);
}

#[test]
fn the_native_extension_is_matched_exactly() {
    assert_eq!(route("MD", &inline("README.MD", "")), Route::ForeignInline);
    assert_eq!(route("markdown", &inline("README.markdown", "")), Route::ForeignInline);
    assert_eq!(route("", &remote("https://example.com/README.")), Route::ForeignRemote);
}

#[test]
fn a_name_without_extension_fails_whatever_the_content() {
    for source in [
        inline("README", "SGVsbG8="),
        inline("README", "not base64 at all"),
        inline("README", ""),
        remote("https://example.com/README.md"),
    ] {
        assert!(matches!(normalize("README", source), Step::Done(Err(Error::NoExtensionFound))));
    }
    assert!(matches!(
        normalize("", inline("", "SGVsbG8=")),
        Step::Done(Err(Error::NoExtensionFound))
    ));
}

#[test]
fn inline_markdown_is_decoded_without_the_converter() {
    match normalize("README.md", inline("README.md", "SGVsbG8=")) {
        Step::Done(Ok(text)) => assert_eq!(text, "Hello"),
        other => panic!("unexpected {:?}", other),
    }
}

#[test]
fn inline_markdown_may_be_broken_into_lines() {
    match normalize("README.md", inline("README.md", "IyBUaXRs\nZQoKVGV4\ndC4K\n")) {
        Step::Done(Ok(text)) => assert_eq!(text, "# Title\n\nText.\n"),
        other => panic!("unexpected {:?}", other),
    }
}

#[test]
fn inline_markdown_that_is_no_base64_fails() {
    assert!(matches!(
        normalize("README.md", inline("README.md", "SGVsbG8")),
        Step::Done(Err(Error::Base64(_)))
    ));
}

#[test]
fn inline_markdown_that_is_no_text_fails() {
    match normalize("README.md", inline("README.md", "/w==")) {
        Step::Done(Err(Error::Utf8(cause))) => assert_eq!(cause.into_bytes(), vec![0xff]),
        other => panic!("unexpected {:?}", other),
    }
    assert!(matches!(native_text("wyg="), Err(Error::Utf8(_))));
}

#[test]
fn native_text_reads_utf8() {
    assert_eq!(native_text("SGVsbG8=").unwrap(), "Hello");
    assert_eq!(native_text("w6kg4oKs").unwrap(), "é €");
    assert_eq!(native_text("").unwrap(), "");
}

#[test]
fn remote_markdown_is_fetched() {
    match normalize("README.md", remote("https://raw.example.com/o/r/README.md")) {
        Step::FetchText(fetch) => {
            assert_eq!(fetch.url, "https://raw.example.com/o/r/README.md");
            match fetch.resume(Ok("# Hi\n".to_string())) {
                Step::Done(Ok(text)) => assert_eq!(text, "# Hi\n"),
                other => panic!("unexpected {:?}", other),
            }
        }
        other => panic!("unexpected {:?}", other),
    }
}

#[test]
fn a_failed_fetch_of_remote_markdown_is_the_result() {
    let fetch = TextFetch { url: "https://raw.example.com/o/r/README.md".to_string() };
    match fetch.resume(Err(Error::Reqwest("timed out".to_string()))) {
        Step::Done(Err(Error::Reqwest(message))) => assert_eq!(message, "timed out"),
        other => panic!("unexpected {:?}", other),
    }
}

#[test]
fn another_format_goes_to_the_converter_under_its_extension() {
    let source = inline("README.rst", "SGVsbG8=");
    match normalize("README.rst", source.clone()) {
        Step::CreateWorkspace(request) => {
            assert_eq!(request.prefix, "greco");
            assert_eq!(request.source, source);
            assert_eq!(request.source_format, "rst");
        }
        other => panic!("unexpected {:?}", other),
    }
}

#[test]
fn an_inline_readme_in_another_format_is_converted() {
    let step = normalize("README.rst", inline("README.rst", "VGl0bGUKPT09PT0K"));
    let step = match step {
        Step::CreateWorkspace(request) => request.resume(Ok("/tmp/grecoXyZ".to_string())),
        other => panic!("unexpected {:?}", other),
    };
    let step = match step {
        Step::WriteSource(write) => {
            assert_eq!(write.request.origin_identifier, "/tmp/grecoXyZ/README.rst");
            assert_eq!(write.payload, b"Title\n=====\n".to_vec());
            write.resume(Ok(()))
        }
        other => panic!("unexpected {:?}", other),
    };
    let step = match step {
        Step::RunConverter(run) => {
            assert_eq!(run.program, "pandoc");
            assert_eq!(
                run.arguments,
                texts(&[
                    "/tmp/grecoXyZ/README.rst",
                    "-f",
                    "rst",
                    "-t",
                    "md",
                    "-o",
                    "/tmp/grecoXyZ/README.rst.md"
                ])
            );
            run.resume(Ok(true))
        }
        other => panic!("unexpected {:?}", other),
    };
    let step = match step {
        Step::ReadOutput(read) => {
            assert_eq!(read.path, "/tmp/grecoXyZ/README.rst.md");
            read.resume(Ok("# Title\n".to_string()))
        }
        other => panic!("unexpected {:?}", other),
    };
    match step {
        Step::Done(Ok(text)) => assert_eq!(text, "# Title\n"),
        other => panic!("unexpected {:?}", other),
    }
}

#[test]
fn a_converter_that_exits_without_success_yields_no_text() {
    let step = normalize("README.rst", inline("README.rst", "VGl0bGUKPT09PT0K"));
    let step = match step {
        Step::CreateWorkspace(request) => request.resume(Ok("/tmp/grecoQ".to_string())),
        other => panic!("unexpected {:?}", other),
    };
    let step = match step {
        Step::WriteSource(write) => write.resume(Ok(())),
        other => panic!("unexpected {:?}", other),
    };
    let step = match step {
        Step::RunConverter(run) => {
            assert_eq!(run.arguments[1..5].to_vec(), texts(&["-f", "rst", "-t", "md"]));
            run.resume(Ok(false))
        }
        other => panic!("unexpected {:?}", other),
    };
    assert!(matches!(step, Step::Done(Err(Error::Pandoc))));
}

#[test]
fn a_remote_readme_in_another_format_is_downloaded_and_converted() {
    let step = normalize("README.org", remote("https://example.com/o/r/readme"));
    let step = match step {
        Step::CreateWorkspace(request) => request.resume(Ok("/tmp/grecoR".to_string())),
        other => panic!("unexpected {:?}", other),
    };
    let step = match step {
        Step::Download(download) => {
            assert_eq!(download.url, "https://example.com/o/r/readme");
            download.resume(Ok(Downloaded {
                final_url: Address::parse("https://raw.example.com/o/r/main/README.org").unwrap(),
                body: b"* Title\n".to_vec(),
            }))
        }
        other => panic!("unexpected {:?}", other),
    };
    let step = match step {
        Step::WriteSource(write) => {
            assert_eq!(write.request.origin_identifier, "/tmp/grecoR/README.org");
            assert_eq!(write.payload, b"* Title\n".to_vec());
            write.resume(Ok(()))
        }
        other => panic!("unexpected {:?}", other),
    };
    let step = match step {
        Step::RunConverter(run) => {
            assert_eq!(
                run.arguments,
                texts(&[
                    "/tmp/grecoR/README.org",
                    "-f",
                    "org",
                    "-t",
                    "md",
                    "-o",
                    "/tmp/grecoR/README.org.md"
                ])
            );
            run.resume(Ok(true))
        }
        other => panic!("unexpected {:?}", other),
    };
    let step = match step {
        Step::ReadOutput(read) => read.resume(Ok("# Title\n".to_string())),
        other => panic!("unexpected {:?}", other),
    };
    match step {
        Step::Done(Ok(text)) => assert_eq!(text, "# Title\n"),
        other => panic!("unexpected {:?}", other),
    }
}

#[test]
fn an_upper_case_extension_is_not_markdown() {
    assert!(matches!(
        normalize("README.MD", inline("README.MD", "SGVsbG8=")),
        Step::CreateWorkspace(_)
    ));
}

#[test]
fn bytes_that_are_no_well_formed_utf8_are_refused() {
    for bytes in [
        vec![0x80u8],
        vec![0xc0, 0x80],
        vec![0xc1, 0xbf],
        vec![0xe0, 0x80, 0x80],
        vec![0xed, 0xa0, 0x80],
        vec![0xf4, 0x90, 0x80, 0x80],
        vec![0xf8, 0x88, 0x80, 0x80, 0x80],
        vec![0xe2, 0x82],
        vec![b'a', 0xff, b'b'],
    ] {
        assert!(matches!(utf8_text(bytes.clone()), Err(Error::Utf8(_))), "{:?}", bytes);
    }
}

#[test]
fn well_formed_utf8_is_read_as_its_characters() {
    assert_eq!(utf8_text(Vec::new()).unwrap(), "");
    assert_eq!(utf8_text(vec![0x7f]).unwrap(), "\u{7f}");
    assert_eq!(utf8_text(vec![0xc2, 0x80]).unwrap(), "\u{80}");
    assert_eq!(utf8_text(vec![0xe0, 0xa0, 0x80]).unwrap(), "\u{800}");
    assert_eq!(utf8_text(vec![0xed, 0x9f, 0xbf]).unwrap(), "\u{d7ff}");
    assert_eq!(utf8_text(vec![0xf0, 0x90, 0x80, 0x80]).unwrap(), "\u{10000}");
    assert_eq!(utf8_text(vec![0xf4, 0x8f, 0xbf, 0xbf]).unwrap(), "\u{10ffff}");
}
