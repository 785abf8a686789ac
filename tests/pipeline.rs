use doc_pipeline::assembly::{
    after_utility, exit_succeeded, ocr_arguments, output_pdf_name, page_selection_arguments, source_pdf_path,
    AssemblyStep,
};
use doc_pipeline::cache::{
    combine_fragments, document_envelope, document_stem, json_sidecar_name, page_keys, plan_cache,
    xml_sidecar_name, CachePlan,
};
use doc_pipeline::error::PipelineError;
use doc_pipeline::extraction::{
    conclude_reply, is_success, page_open_tag, provider_config, Attempt, ReplyBody, RetryState,
    MAX_RETRIES, STATUS_OVERLOADED,
};
use doc_pipeline::page_key::extract_page_number;
use doc_pipeline::prompts::{naming_prompt, page_request, FILE_NAME_GENERATION_PROMPT};
use doc_pipeline::run::{DocumentRun, RunAction, RunEvent, RunStage};
use doc_pipeline::record::{new_record, update_file_name, DocumentRecord};
use doc_pipeline::text::join;
use doc_pipeline::xml_format::format_xml;

fn strings(v: &[&str]) -> Vec<String> {
    v.iter().map(|s| s.to_string()).collect()
}

fn record_named(name: &str) -> DocumentRecord {
    new_record(
        "/docs/scan-data/document_page_1.json".to_string(),
        strings(&["/docs/scan-data/page-1.webp"]),
        name.to_string(),
    )
}

#[test]
fn page_key_takes_the_digits() {
    assert_eq!(extract_page_number("/docs/scan-data/page-12.webp"), "12");
    assert_eq!(extract_page_number("page-0042x"), "0042");
    assert_eq!(extract_page_number("C:\\scans\\page-7.webp"), "7");
}

#[test]
fn page_key_takes_the_leftmost_key() {
    assert_eq!(extract_page_number("/a/page-3/page-4.webp"), "3");
    assert_eq!(extract_page_number("/a/page-x/page-9.webp"), "9");
}

#[test]
fn page_key_without_pattern_is_unidentified() {
    assert_eq!(extract_page_number("/docs/cover.webp"), "unidentified");
    assert_eq!(extract_page_number("/docs/page-.webp"), "unidentified");
    assert_eq!(extract_page_number(""), "unidentified");
    assert_eq!(extract_page_number("/docs/Page-3.webp"), "unidentified");
}

#[test]
fn stem_of_example_pages() {
    let pages = strings(&["/docs/scan-data/page-1.webp", "/docs/scan-data/page-2.webp"]);
    let stem = document_stem(&pages);
    assert_eq!(stem, "document_page_1_2");
    assert_eq!(xml_sidecar_name(&stem), "document_page_1_2.xml");
    assert_eq!(json_sidecar_name(&stem), "document_page_1_2.json");
}

#[test]
fn stem_with_unidentified_page() {
    let pages = strings(&["/d/page-5.webp", "/d/back.webp"]);
    assert_eq!(page_keys(&pages), strings(&["5", "unidentified"]));
    assert_eq!(document_stem(&pages), "document_page_5_unidentified");
    assert_eq!(document_stem(&Vec::new()), "document_page_");
}

#[test]
fn join_places_separators_between() {
    assert_eq!(join(&strings(&["a", "b", "c"]), ", "), "a, b, c");
    assert_eq!(join(&strings(&["a"]), ","), "a");
    assert_eq!(join(&Vec::new(), ","), "");
}

#[test]
fn cache_plan_by_sidecars() {
    assert_eq!(plan_cache(true, true), CachePlan::ReadRecord);
    assert_eq!(plan_cache(true, false), CachePlan::ResumeFromXml);
    assert_eq!(plan_cache(false, true), CachePlan::ExtractAll);
    assert_eq!(plan_cache(false, false), CachePlan::ExtractAll);
}

#[test]
fn second_run_on_complete_cache_reads_record() {
    // the first run writes both sidecars; the second finds them
    let first = plan_cache(false, false);
    assert_eq!(first, CachePlan::ExtractAll);
    assert_eq!(plan_cache(true, true), CachePlan::ReadRecord);
    assert_eq!(plan_cache(true, true), CachePlan::ReadRecord);
}

#[test]
fn fragments_and_envelope() {
    let joined = combine_fragments(&strings(&["<page number=\"1\">a</page>", "<page number=\"2\">b</page>"]));
    assert_eq!(joined, "<document><page number=\"1\">a</page>\n<page number=\"2\">b</page></document>");
    let env = document_envelope("/d/x.json", &strings(&["/d/page-1.webp", "/d/page-2.webp"]), "<file_name>Deed</file_name>");
    assert_eq!(
        env,
        "<document><json_file_path>/d/x.json</json_file_path><pages_paths>/d/page-1.webp,/d/page-2.webp</pages_paths><file_name>Deed</file_name></document>"
    );
}

#[test]
fn always_overloaded_gets_five_retries() {
    let mut state = RetryState::new();
    let mut attempts = 0;
    loop {
        attempts += 1;
        match state.on_status(STATUS_OVERLOADED) {
            Attempt::Retry => continue,
            Attempt::Conclude => break,
        }
    }
    assert_eq!(attempts, 6);
    assert_eq!(state.retries, MAX_RETRIES);
    let r = conclude_reply(
        STATUS_OVERLOADED,
        ReplyBody::ProviderError { error_type: "overloaded_error".to_string(), message: "Overloaded".to_string() },
        "<page number=\"1\">",
    );
    match r {
        Err(PipelineError::Overload(m)) => {
            assert_eq!(m, "Anthropic request error: type:overloaded_error, message:Overloaded")
        }
        other => panic!("unexpected {:?}", other),
    }
}

#[test]
fn other_statuses_conclude_at_once() {
    let mut state = RetryState::new();
    assert_eq!(state.on_status(200), Attempt::Conclude);
    assert_eq!(state.on_status(500), Attempt::Conclude);
    assert_eq!(state.retries, 0);
    assert_eq!(state.on_status(529), Attempt::Retry);
    assert_eq!(state.on_status(200), Attempt::Conclude);
    assert_eq!(state.retries, 1);
}

#[test]
fn success_status_range() {
    assert!(is_success(200));
    assert!(is_success(299));
    assert!(!is_success(300));
    assert!(!is_success(199));
    assert!(!is_success(529));
}

#[test]
fn success_reply_completes_the_tag() {
    let prefill = page_open_tag("7");
    assert_eq!(prefill, "<page number=\"7\">");
    let r = conclude_reply(200, ReplyBody::Content(strings(&["ignored", "text</page>"])), &prefill);
    assert_eq!(r.unwrap(), "<page number=\"7\">text</page>");
}

#[test]
fn success_reply_without_content_fails() {
    let r = conclude_reply(200, ReplyBody::Content(Vec::new()), "");
    assert!(matches!(r, Err(PipelineError::Transport(_))));
    let r = conclude_reply(200, ReplyBody::Unreadable, "");
    assert!(matches!(r, Err(PipelineError::Transport(_))));
}

#[test]
fn failed_reply_carries_provider_error() {
    let r = conclude_reply(
        400,
        ReplyBody::ProviderError { error_type: "invalid_request_error".to_string(), message: "bad image".to_string() },
        "",
    );
    match r {
        Err(PipelineError::Transport(m)) => {
            assert_eq!(m, "Anthropic request error: type:invalid_request_error, message:bad image")
        }
        other => panic!("unexpected {:?}", other),
    }
    let r = conclude_reply(500, ReplyBody::Unreadable, "");
    assert!(matches!(r, Err(PipelineError::Transport(_))));
}

#[test]
fn api_key_is_required() {
    assert!(matches!(provider_config(None), Err(PipelineError::Config(_))));
    assert_eq!(provider_config(Some("SECRET-REDACTED".to_string())).unwrap().api_key, "SECRET-REDACTED");
}

#[test]
fn page_request_for_a_page() {
    let r = page_request("/d/page-4.webp", &vec![1u8, 2, 3, 4]);
    assert_eq!(r.page_number, "4");
    assert_eq!(r.image_base64, "AQIDBA==");
    assert_eq!(r.prefill, "<page number=\"4\">");
    assert!(r.initial_text.contains("page 4"));
    assert!(!r.initial_text.contains("{page_number}"));
    assert!(r.final_text.contains("<page number=\"4\">"));
    assert!(!r.final_text.contains("{page_number}"));
}

#[test]
fn naming_prompt_holds_the_xml() {
    let p = naming_prompt("<doc><page number=\"1\">x</page></doc>");
    assert!(p.contains("<doc><page number=\"1\">x</page></doc>"));
    assert!(!p.contains("{XML}"));
    assert_eq!(p.len(), FILE_NAME_GENERATION_PROMPT.len() - "{XML}".len() + "<doc><page number=\"1\">x</page></doc>".len());
}

#[test]
fn format_xml_trims_and_expands() {
    let r = format_xml("<doc>\n  <page number=\"1\">  hello  </page>\n<page number=\"2\"/>\n</doc>").unwrap();
    assert_eq!(r, "<doc><page number=\"1\">hello</page><page number=\"2\"></page></doc>");
}

#[test]
fn format_xml_joins_fragments() {
    let joined = combine_fragments(&strings(&["<page number=\"1\"> a </page>", "<page number=\"2\">b</page>"]));
    let r = format_xml(&joined).unwrap();
    assert_eq!(r, "<document><page number=\"1\">a</page><page number=\"2\">b</page></document>");
}

#[test]
fn format_xml_rejects_malformed() {
    match format_xml("<a></b>") {
        Err(PipelineError::Format(m)) => assert!(m.starts_with("Error parsing XML"), "{}", m),
        other => panic!("unexpected {:?}", other),
    }
    match format_xml("<a><b") {
        Err(PipelineError::Format(m)) => assert!(m.starts_with("Error parsing XML"), "{}", m),
        other => panic!("unexpected {:?}", other),
    }
}

#[test]
fn rename_to_current_name_is_noop() {
    let mut rec = record_named("Deed");
    assert!(!update_file_name(&mut rec, "Deed".to_string()));
    assert_eq!(rec.file_name, "Deed");
    assert!(rec.file_name_history.is_empty());
}

#[test]
fn rename_chain_keeps_history() {
    let mut rec = record_named("A");
    assert!(update_file_name(&mut rec, "B".to_string()));
    assert_eq!(rec.file_name_history, strings(&["A"]));
    assert!(update_file_name(&mut rec, "C".to_string()));
    assert_eq!(rec.file_name, "C");
    assert_eq!(rec.file_name_history, strings(&["A", "B"]));
    assert!(update_file_name(&mut rec, "A".to_string()));
    assert_eq!(rec.file_name, "A");
    assert_eq!(rec.file_name_history, strings(&["A", "B", "C"]));
    assert!(update_file_name(&mut rec, "B".to_string()));
    assert_eq!(rec.file_name_history, strings(&["A", "B", "C"]));
    assert_eq!(rec.json_file_path, "/docs/scan-data/document_page_1.json");
}

#[test]
fn source_pdf_path_strips_data_suffix() {
    assert_eq!(source_pdf_path("/docs/scan-data"), "/docs/scan.pdf");
    assert_eq!(source_pdf_path("/docs/v1.2-data"), "/docs/v1.2.pdf");
    assert_eq!(source_pdf_path("/docs/scan"), "/docs/scan.pdf");
    assert_eq!(source_pdf_path("-data"), "-data.pdf");
    assert_eq!(source_pdf_path("/docs/a-data-data"), "/docs/a-data.pdf");
}

#[test]
fn output_name_appends_extension() {
    assert_eq!(output_pdf_name("Deed"), "Deed.pdf");
    assert_eq!(output_pdf_name("v1.2"), "v1.2.pdf");
}

#[test]
fn page_selection_arguments_in_order() {
    let args = page_selection_arguments(
        "/docs/scan.pdf",
        &strings(&["/docs/scan-data/page-3.webp", "/docs/scan-data/page-1.webp"]),
        "/docs/scan-data/done/Deed.pdf",
    );
    assert_eq!(
        args,
        strings(&["--empty", "--pages", "/docs/scan.pdf", "3,1", "--", "/docs/scan-data/done/Deed.pdf"])
    );
}

#[test]
fn ocr_arguments_in_place() {
    let args = ocr_arguments("/o.pdf");
    assert_eq!(
        args,
        strings(&[
            "--force-ocr",
            "--pdf-renderer",
            "hocr",
            "--color-conversion-strategy",
            "UseDeviceIndependentColor",
            "-l",
            "por",
            "--clean",
            "--output-type",
            "pdfa-2",
            "/o.pdf",
            "/o.pdf",
        ])
    );
}

#[test]
fn exit_codes() {
    assert!(exit_succeeded(Some(0)));
    assert!(!exit_succeeded(Some(1)));
    assert!(!exit_succeeded(None));
}

#[test]
fn failed_selection_never_runs_ocr() {
    assert_eq!(after_utility(AssemblyStep::SelectPages, Some(2)), AssemblyStep::Failed);
    assert_eq!(after_utility(AssemblyStep::SelectPages, None), AssemblyStep::Failed);
}

#[test]
fn assembly_runs_both_utilities() {
    let s = after_utility(AssemblyStep::SelectPages, Some(0));
    assert_eq!(s, AssemblyStep::Ocr);
    assert_eq!(after_utility(s, Some(0)), AssemblyStep::Finished);
    assert_eq!(after_utility(s, Some(1)), AssemblyStep::Failed);
}

fn example_run() -> DocumentRun {
    DocumentRun::new(
        strings(&["/docs/scan-data/page-1.webp", "/docs/scan-data/page-2.webp"]),
        "/docs/scan-data/document_page_1_2.json".to_string(),
    )
}

#[test]
fn run_with_both_sidecars_returns_record_twice() {
    for _ in 0..2 {
        let mut run = example_run();
        let a = run.step(RunEvent::Sidecars { xml_exists: true, json_exists: true });
        assert!(matches!(a, RunAction::ReturnRecord));
        assert_eq!(run.stage, RunStage::Done);
        assert!(matches!(run.step(RunEvent::PageExtracted("x".to_string())), RunAction::Fail(_)));
    }
}

#[test]
fn run_with_xml_only_names_without_extracting() {
    let mut run = example_run();
    assert!(matches!(run.step(RunEvent::Sidecars { xml_exists: true, json_exists: false }), RunAction::ReadXml));
    let xml = "<page number=\"1\">a</page>";
    match run.step(RunEvent::XmlRead(xml.to_string())) {
        RunAction::RequestName(p) => assert_eq!(p, naming_prompt(xml)),
        other => panic!("unexpected {:?}", other),
    }
    match run.step(RunEvent::NameReceived("<file_name>Deed</file_name>".to_string())) {
        RunAction::BuildRecord(env) => assert!(env.ends_with("<file_name>Deed</file_name></document>")),
        other => panic!("unexpected {:?}", other),
    }
}

#[test]
fn full_run_of_two_pages() {
    let mut run = example_run();
    assert!(matches!(run.step(RunEvent::Sidecars { xml_exists: false, json_exists: false }), RunAction::ExtractPage(0)));
    assert!(matches!(
        run.step(RunEvent::PageExtracted("<page number=\"1\">\n  first  \n</page>".to_string())),
        RunAction::ExtractPage(1)
    ));
    let xml = match run.step(RunEvent::PageExtracted("<page number=\"2\">second</page>".to_string())) {
        RunAction::SaveXml(x) => x,
        other => panic!("unexpected {:?}", other),
    };
    assert_eq!(xml, "<document><page number=\"1\">first</page><page number=\"2\">second</page></document>");
    match run.step(RunEvent::XmlSaved) {
        RunAction::RequestName(p) => assert_eq!(p, naming_prompt(&xml)),
        other => panic!("unexpected {:?}", other),
    }
    match run.step(RunEvent::NameReceived("<file_name>Deed</file_name>".to_string())) {
        RunAction::BuildRecord(env) => assert_eq!(
            env,
            "<document><json_file_path>/docs/scan-data/document_page_1_2.json</json_file_path><pages_paths>/docs/scan-data/page-1.webp,/docs/scan-data/page-2.webp</pages_paths><file_name>Deed</file_name></document>"
        ),
        other => panic!("unexpected {:?}", other),
    }
    assert_eq!(run.stage, RunStage::Done);
}

#[test]
fn run_with_malformed_fragment_fails() {
    let mut run = DocumentRun::new(strings(&["/d/page-1.webp"]), "/d/document_page_1.json".to_string());
    assert!(matches!(run.step(RunEvent::Sidecars { xml_exists: false, json_exists: true }), RunAction::ExtractPage(0)));
    assert!(matches!(
        run.step(RunEvent::PageExtracted("<page number=\"1\">a</pag>".to_string())),
        RunAction::Fail(PipelineError::Format(_))
    ));
}

#[test]
fn run_rejects_unexpected_event() {
    let mut run = example_run();
    assert!(matches!(run.step(RunEvent::XmlSaved), RunAction::Fail(_)));
    assert_eq!(run.stage, RunStage::Done);
}
