use headless_chrome::protocol::dom::methods::QuerySelectorAllReturnObject;
use headless_chrome::protocol::dom::methods::QuerySelectorReturnObject;
use headless_chrome::protocol::dom::Node;
use headless_chrome::protocol::input::methods::DispatchKeyEvent;
use headless_chrome::protocol::input::methods::DispatchMouseEvent;
use headless_chrome::protocol::page::events::LifecycleEvent;
use headless_chrome::protocol::page::events::LifecycleParams;
use headless_chrome::protocol::page::methods::CaptureScreenshotReturnObject;
use headless_chrome::protocol::page::methods::NavigateReturnObject;
use headless_chrome::protocol::page::InternalScreenshotFormat;
use headless_chrome::protocol::page::ScreenshotFormat;
use headless_chrome::protocol::page::Viewport;
use headless_chrome::protocol::profiler::methods::Enable;
use headless_chrome::protocol::target::TargetInfo;
use headless_chrome::protocol::target::TargetType;
use headless_chrome::protocol::Event;
use headless_chrome::tab::Element;
use headless_chrome::tab::InvalidImageData;
use headless_chrome::keys::get_key_definition;
use headless_chrome::keys::KeyDefinition;
use headless_chrome::tab::key_events;
use headless_chrome::tab::NavigationPhase;
use headless_chrome::tab::NavigationStep;
use headless_chrome::tab::NoElementFound;
use headless_chrome::tab::Point;
use headless_chrome::tab::Tab;
use headless_chrome::tab::ELEMENT_TIMEOUT;
use headless_chrome::transport::Disposition;
use headless_chrome::transport::Transport;
use headless_chrome::wait::Step;
use headless_chrome::wire::CallError;
use headless_chrome::wire::Frame;
use headless_chrome::wire::Request;

fn info(url: &str) -> TargetInfo {
    TargetInfo {
        target_id: "TARGET".to_string(),
        target_type: TargetType::Page,
        title: "A page".to_string(),
        url: url.to_string(),
        attached: true,
        opener_id: None,
        browser_context_id: None,
    }
}

fn tab() -> Tab {
    Tab::new(info("about:blank"), "SESSION".to_string())
}

fn lifecycle(name: &str) -> Event {
    Event::Lifecycle(LifecycleEvent {
        params: LifecycleParams {
            frame_id: "FRAME".to_string(),
            loader_id: "LOADER".to_string(),
            name: name.to_string(),
        },
    })
}

fn document() -> Node {
    Node {
        node_id: 1,
        backend_node_id: 2,
        node_type: 9,
        node_name: "#document".to_string(),
        node_value: String::new(),
        children: None,
    }
}

fn element(node_id: u16, selector: &str) -> Element {
    Element { node_id, found_via_selector: selector.to_string() }
}

#[test]
fn a_new_tab_knows_its_target_and_is_idle() {
    let tab = tab();
    assert_eq!(tab.get_target_id(), "TARGET");
    assert_eq!(tab.get_session_id(), "SESSION");
    assert_eq!(tab.get_url(), "about:blank");
    assert!(!tab.navigating());
}

#[test]
fn attaching_names_the_target() {
    let info = info("about:blank");
    let command = Tab::attach(&info);
    assert_eq!(command.target_id, "TARGET");
    assert_eq!(command.flatten, None);
}

#[test]
fn a_tab_turns_lifecycle_events_on() {
    let (_page, lifecycle) = tab().enable();
    assert!(lifecycle.enabled);
}

#[test]
fn new_target_info_replaces_the_old() {
    let mut tab = tab();
    tab.update_target_info(info("https://example.org/"));
    assert_eq!(tab.get_url(), "https://example.org/");
    assert_eq!(tab.get_target_id(), "TARGET");
    assert_eq!(tab.get_session_id(), "SESSION");
}

#[test]
fn lifecycle_events_track_the_navigation() {
    let mut tab = tab();
    tab.handle_event(&lifecycle("DOMContentLoaded"));
    assert!(!tab.navigating());
    tab.handle_event(&lifecycle("init"));
    assert!(tab.navigating());
    tab.handle_event(&lifecycle("load"));
    tab.handle_event(&Event::Other { method: "Network.dataReceived".to_string() });
    tab.handle_event(&lifecycle("Init"));
    tab.handle_event(&lifecycle("networkIdle"));
    assert!(tab.navigating());
    tab.handle_event(&lifecycle("networkAlmostIdle"));
    assert!(!tab.navigating());
    tab.handle_event(&lifecycle("networkAlmostIdle"));
    assert!(!tab.navigating());
}

#[test]
fn a_run_of_events_is_handled_in_order() {
    let mut tab = tab();
    tab.handle_events(&vec![lifecycle("init"), lifecycle("networkAlmostIdle")]);
    assert!(!tab.navigating());
    tab.handle_events(&vec![lifecycle("networkAlmostIdle"), lifecycle("init"), lifecycle("load")]);
    assert!(tab.navigating());
    tab.handle_events(&Vec::new());
    assert!(tab.navigating());
}

#[test]
fn the_navigation_wait_returns_only_after_the_second_event() {
    let mut tab = tab();
    let mut phase = NavigationPhase::Starting;
    // The navigation command has returned, but no lifecycle event has come.
    assert_eq!(tab.wait_until_navigated(phase, 0), NavigationStep::Sleep(100));
    assert_eq!(tab.wait_until_navigated(phase, 100), NavigationStep::Sleep(100));
    tab.handle_event(&lifecycle("init"));
    assert_eq!(tab.wait_until_navigated(phase, 200), NavigationStep::Started);
    phase = NavigationPhase::Finishing;
    assert_eq!(tab.wait_until_navigated(phase, 0), NavigationStep::Sleep(100));
    assert_eq!(tab.wait_until_navigated(phase, 100), NavigationStep::Sleep(100));
    tab.handle_event(&lifecycle("networkAlmostIdle"));
    assert_eq!(tab.wait_until_navigated(phase, 200), NavigationStep::Finished);
}

#[test]
fn each_phase_of_the_navigation_wait_has_its_own_deadline() {
    let starting = NavigationPhase::Starting;
    let finishing = NavigationPhase::Finishing;
    let mut tab = tab();
    assert_eq!(tab.wait_until_navigated(starting, 10_000), NavigationStep::Sleep(100));
    assert_eq!(tab.wait_until_navigated(starting, 10_001), NavigationStep::TimedOut);
    assert_eq!(tab.wait_until_navigated(finishing, 10_001), NavigationStep::Finished);
    tab.handle_event(&lifecycle("init"));
    assert_eq!(tab.wait_until_navigated(starting, 10_001), NavigationStep::Started);
    assert_eq!(tab.wait_until_navigated(finishing, 10_000), NavigationStep::Sleep(100));
    assert_eq!(tab.wait_until_navigated(finishing, 10_001), NavigationStep::TimedOut);
}

#[test]
fn a_tab_calls_on_its_own_session() {
    let tab = tab();
    let mut transport = Transport::new();
    let handle = tab
        .call_method(&mut transport, &Enable {}, serde_json::Value::Null)
        .expect("open");
    assert_eq!(handle.id(), 0);
    assert_eq!(
        transport.take_outgoing(),
        vec![Request {
            id: 0,
            session_id: Some("SESSION".to_string()),
            method: "Profiler.enable".to_string(),
            params: serde_json::Value::Null,
        }]
    );
    transport.shutdown();
    assert_eq!(
        tab.call_method(&mut transport, &Enable {}, serde_json::Value::Null),
        Err(CallError::TransportClosed)
    );
}

#[test]
fn a_tab_hears_the_events_of_its_session_only() {
    let tab = tab();
    let mut transport = Transport::new();
    let events = tab.listen(&mut transport);
    let frame = |session: &str| Frame {
        id: None,
        method: Some("Page.lifecycleEvent".to_string()),
        session_id: Some(session.to_string()),
        params: Some(serde_json::Value::Null),
        result: None,
        error: None,
    };
    assert_eq!(transport.handle_incoming(frame("OTHER")), Disposition::Unheard);
    assert_eq!(transport.handle_incoming(frame("SESSION")), Disposition::Routed);
    let heard = transport.next_event(&events).expect("one event");
    assert_eq!(heard.session_id.as_deref(), Some("SESSION"));
    assert_eq!(transport.next_event(&events), None);
}

#[test]
fn navigating_asks_for_the_url() {
    assert_eq!(tab().navigate_to("https://www.wikipedia.org").url, "https://www.wikipedia.org");
}

#[test]
fn a_navigation_with_error_text_has_failed() {
    let reply = NavigateReturnObject {
        frame_id: "F".to_string(),
        loader_id: None,
        error_text: Some("net::ERR_NAME_NOT_RESOLVED".to_string()),
    };
    let error = tab().navigate_to_reply(reply).expect_err("failed");
    assert_eq!(error.get_error_text(), "net::ERR_NAME_NOT_RESOLVED");
    assert_eq!(error.to_string(), "Navigate failed: net::ERR_NAME_NOT_RESOLVED");
}

#[test]
fn a_navigation_without_error_text_has_succeeded() {
    let reply = NavigateReturnObject {
        frame_id: "F".to_string(),
        loader_id: Some("L".to_string()),
        error_text: None,
    };
    assert_eq!(tab().navigate_to_reply(reply), Ok(()));
}

#[test]
fn the_document_is_asked_for_without_children() {
    let command = tab().get_document();
    assert_eq!(command.depth, Some(0));
    assert_eq!(command.pierce, Some(false));
}

#[test]
fn a_node_is_described_a_hundred_levels_deep() {
    let command = tab().describe_node(12);
    assert_eq!(command.node_id, Some(12));
    assert_eq!(command.backend_node_id, None);
    assert_eq!(command.depth, Some(100));
}

#[test]
fn elements_are_searched_below_the_document_root() {
    let one = tab().find_element(&document(), "#main");
    assert_eq!((one.node_id, one.selector), (1, "#main"));
    let all = tab().find_elements(&document(), "a[href]");
    assert_eq!((all.node_id, all.selector), (1, "a[href]"));
}

#[test]
fn the_node_of_a_query_is_an_element() {
    let found = tab().find_element_reply("#main", QuerySelectorReturnObject { node_id: 7 });
    assert_eq!(found, Ok(element(7, "#main")));
    assert_eq!(Element::new(65535, "p"), Ok(element(65535, "p")));
}

#[test]
fn node_zero_is_no_element() {
    let found = tab().find_element_reply("#missing", QuerySelectorReturnObject { node_id: 0 });
    let error = found.expect_err("nothing matched");
    assert_eq!(error.get_selector(), "#missing");
    assert_eq!(error.to_string(), "No element found for selector: #missing");
    assert_eq!(error, NoElementFound::new("#missing"));
}

#[test]
fn the_nodes_of_a_query_are_elements_in_the_same_order() {
    let reply = QuerySelectorAllReturnObject { node_ids: vec![9, 4, 11] };
    assert_eq!(
        tab().find_elements_reply("li", reply),
        Ok(vec![element(9, "li"), element(4, "li"), element(11, "li")])
    );
}

#[test]
fn a_query_without_nodes_found_no_element() {
    let reply = QuerySelectorAllReturnObject { node_ids: Vec::new() };
    assert_eq!(tab().find_elements_reply("li", reply), Err(NoElementFound::new("li")));
    let reply = QuerySelectorAllReturnObject { node_ids: vec![3, 0, 5] };
    assert_eq!(tab().find_elements_reply("li", reply), Err(NoElementFound::new("li")));
}

#[test]
fn waiting_for_an_element_lasts_fifteen_seconds() {
    assert_eq!(ELEMENT_TIMEOUT, 15_000);
    let tab = tab();
    let missing = || Err::<Element, NoElementFound>(NoElementFound::new("#late"));
    assert_eq!(tab.wait_for_element(missing(), 0), Step::Sleep(100));
    assert_eq!(tab.wait_for_element(missing(), 15_000), Step::Sleep(100));
    assert_eq!(tab.wait_for_element(missing(), 15_001), Step::TimedOut);
    assert_eq!(
        tab.wait_for_element(Ok::<Element, ()>(element(3, "#late")), 15_001),
        Step::Done(element(3, "#late"))
    );
    let unreachable = Err::<Element, CallError>(CallError::CallTimeout);
    assert_eq!(tab.wait_for_element(unreachable, 1), Step::Sleep(100));
}

#[test]
fn waiting_for_an_element_takes_a_custom_deadline() {
    let tab = tab();
    let missing = || Err::<Element, NoElementFound>(NoElementFound::new("#late"));
    assert_eq!(tab.wait_for_element_with_custom_timeout(missing(), 500, 500), Step::Sleep(100));
    assert_eq!(tab.wait_for_element_with_custom_timeout(missing(), 501, 500), Step::TimedOut);
    assert_eq!(tab.wait_for_element_with_custom_timeout(missing(), 1, 0), Step::TimedOut);
    assert_eq!(
        tab.wait_for_element_with_custom_timeout(Ok::<Element, ()>(element(3, "p")), 501, 500),
        Step::Done(element(3, "p"))
    );
}

#[test]
fn waiting_for_elements_lasts_fifteen_seconds() {
    let tab = tab();
    let missing = || Err::<Vec<Element>, NoElementFound>(NoElementFound::new("li"));
    assert_eq!(tab.wait_for_elements(missing(), 15_000), Step::Sleep(100));
    assert_eq!(tab.wait_for_elements(missing(), 15_001), Step::TimedOut);
    assert_eq!(
        tab.wait_for_elements(Ok::<Vec<Element>, ()>(vec![element(3, "li")]), 20_000),
        Step::Done(vec![element(3, "li")])
    );
}

#[test]
fn a_text_is_typed_one_character_at_a_time() {
    assert_eq!(tab().type_str("héllo w"), vec!["h", "é", "l", "l", "o", " ", "w"]);
    assert_eq!(tab().type_str("a"), vec!["a"]);
    assert!(tab().type_str("").is_empty());
}

fn layout() -> Vec<KeyDefinition<'static>> {
    vec![
        KeyDefinition { key: "Enter", key_code: 13, code: "Enter", text: Some("\r") },
        KeyDefinition { key: "Tab", key_code: 9, code: "Tab", text: None },
        KeyDefinition { key: "a", key_code: 65, code: "KeyA", text: None },
        KeyDefinition { key: "a", key_code: 0, code: "Shadowed", text: Some("never") },
        KeyDefinition { key: "é", key_code: 0, code: "", text: None },
    ]
}

#[test]
fn a_key_that_sends_text_goes_down_as_key_down() {
    let event = |event_type: &'static str| DispatchKeyEvent {
        event_type,
        key: Some("Enter"),
        text: Some("\r"),
        code: Some("Enter"),
        windows_virtual_key_code: 13,
        native_virtual_key_code: 13,
    };
    assert_eq!(tab().press_key(&layout(), "Enter"), Ok(vec![event("keyDown"), event("keyUp")]));
}

#[test]
fn a_key_of_one_byte_sends_itself() {
    let events = tab().press_key(&layout(), "a").expect("defined");
    assert_eq!(events.len(), 2);
    assert_eq!(events[0].event_type, "keyDown");
    assert_eq!(events[0].text, Some("a"));
    assert_eq!(events[0].code, Some("KeyA"));
    assert_eq!(events[0].windows_virtual_key_code, 65);
    assert_eq!(events[1].event_type, "keyUp");
    assert_eq!(events[1].text, Some("a"));
}

#[test]
fn a_key_without_text_goes_down_as_raw_key_down() {
    let event = |event_type: &'static str| DispatchKeyEvent {
        event_type,
        key: Some("Tab"),
        text: None,
        code: Some("Tab"),
        windows_virtual_key_code: 9,
        native_virtual_key_code: 9,
    };
    assert_eq!(tab().press_key(&layout(), "Tab"), Ok(vec![event("rawKeyDown"), event("keyUp")]));
    // One character, but two bytes: the key does not send itself.
    let events = tab().press_key(&layout(), "é").expect("defined");
    assert_eq!(events[0].event_type, "rawKeyDown");
    assert_eq!(events[0].text, None);
    assert_eq!(key_events(layout()[4]), events);
}

#[test]
fn a_key_that_the_layout_lacks_is_an_error() {
    let error = tab().press_key(&layout(), "F13").expect_err("not defined");
    assert_eq!(error.get_key(), "F13");
    assert_eq!(error.to_string(), "Key not found: F13");
    assert!(tab().press_key(&[], "a").is_err());
    assert!(tab().press_key(&layout(), "A").is_err());
    assert!(tab().press_key(&layout(), "").is_err());
}

#[test]
fn a_key_is_looked_up_by_its_name() {
    assert_eq!(get_key_definition(&layout(), "Tab"), Ok(layout()[1]));
    assert_eq!(get_key_definition(&layout(), "a"), Ok(layout()[2]));
    assert_eq!(get_key_definition(&layout(), "é"), Ok(layout()[4]));
    assert!(get_key_definition(&layout(), "e").is_err());
    assert!(get_key_definition(&layout(), "Ente").is_err());
    assert!(get_key_definition(&layout(), "Enter ").is_err());
}

#[test]
fn a_click_moves_presses_and_releases() {
    let events = tab().click_point(Point { x: 10.5f64, y: 20.25f64 });
    assert_eq!(
        events,
        vec![
            DispatchMouseEvent {
                event_type: "mouseMoved",
                x: 10.5,
                y: 20.25,
                button: None,
                click_count: None,
            },
            DispatchMouseEvent {
                event_type: "mousePressed",
                x: 10.5,
                y: 20.25,
                button: Some("left"),
                click_count: Some(1),
            },
            DispatchMouseEvent {
                event_type: "mouseReleased",
                x: 10.5,
                y: 20.25,
                button: Some("left"),
                click_count: Some(1),
            },
        ]
    );
}

#[test]
fn a_jpeg_screenshot_carries_its_quality() {
    let clip = Viewport { x: 0.0f64, y: 1.0, width: 800.0, height: 600.0, scale: 1.0 };
    let command = tab().capture_screenshot(ScreenshotFormat::JPEG(Some(80)), Some(clip), true);
    assert_eq!(command.format, InternalScreenshotFormat::JPEG);
    assert_eq!(command.quality, Some(80));
    assert_eq!(
        command.clip,
        Some(Viewport { x: 0.0, y: 1.0, width: 800.0, height: 600.0, scale: 1.0 })
    );
    assert!(command.from_surface);
    let command = tab().capture_screenshot::<f64>(ScreenshotFormat::JPEG(None), None, false);
    assert_eq!(command.format, InternalScreenshotFormat::JPEG);
    assert_eq!(command.quality, None);
}

#[test]
fn a_png_screenshot_has_no_quality() {
    let command = tab().capture_screenshot::<f64>(ScreenshotFormat::PNG, None, false);
    assert_eq!(command.format, InternalScreenshotFormat::PNG);
    assert_eq!(command.quality, None);
    assert_eq!(command.clip, None);
    assert!(!command.from_surface);
}

#[test]
fn the_image_of_a_screenshot_is_decoded_from_base64() {
    let reply = CaptureScreenshotReturnObject { data: "iVBORw0KGgo=".to_string() };
    assert_eq!(
        tab().capture_screenshot_reply(&reply),
        Ok(vec![0x89, b'P', b'N', b'G', 0x0d, 0x0a, 0x1a, 0x0a])
    );
    let reply = CaptureScreenshotReturnObject { data: "aGVsbG8=".to_string() };
    assert_eq!(tab().capture_screenshot_reply(&reply), Ok(b"hello".to_vec()));
    let reply = CaptureScreenshotReturnObject { data: String::new() };
    assert_eq!(tab().capture_screenshot_reply(&reply), Ok(Vec::new()));
}

#[test]
fn image_data_of_any_real_length_can_be_decoded() {
    let reply = CaptureScreenshotReturnObject { data: "iVBORw0K".repeat(1000) };
    let read = tab().try_capture_screenshot_reply(&reply).expect("short enough");
    assert_eq!(read.map(|image| image.len()), Ok(6000));
    let reply = CaptureScreenshotReturnObject { data: "aGVsbG8=".to_string() };
    assert_eq!(tab().try_capture_screenshot_reply(&reply), Some(Ok(b"hello".to_vec())));
    let reply = CaptureScreenshotReturnObject { data: "****".to_string() };
    assert_eq!(
        tab().try_capture_screenshot_reply(&reply),
        Some(Err(InvalidImageData::InvalidByte(0, b'*')))
    );
}

#[test]
fn image_data_that_is_not_base64_is_the_decoder_s_error() {
    let read = |data: &str| {
        tab().capture_screenshot_reply(&CaptureScreenshotReturnObject { data: data.to_string() })
    };
    assert_eq!(read("not base64!"), Err(InvalidImageData::InvalidByte(3, b' ')));
    assert_eq!(read("****"), Err(InvalidImageData::InvalidByte(0, b'*')));
    assert_eq!(read("aGVsbG8=!"), Err(InvalidImageData::InvalidLength));
    assert_eq!(read("a"), Err(InvalidImageData::InvalidLength));
    assert_eq!(read("aGVsb"), Err(InvalidImageData::InvalidLength));
    assert_eq!(read("iV=="), Err(InvalidImageData::InvalidLastSymbol(1, b'V')));
}

#[test]
fn the_decoder_s_error_is_what_the_decoder_reports() {
    for data in ["not base64!", "****", "a", "aGVsb", "iV==", "aGVsbG8=", "", "iVBORw0KGgo="] {
        let reply = CaptureScreenshotReturnObject { data: data.to_string() };
        let expected = base64::decode(data).map_err(|error| match error {
            base64::DecodeError::InvalidByte(at, byte) => InvalidImageData::InvalidByte(at, byte),
            base64::DecodeError::InvalidLength => InvalidImageData::InvalidLength,
            base64::DecodeError::InvalidLastSymbol(at, byte) => {
                InvalidImageData::InvalidLastSymbol(at, byte)
            },
        });
        assert_eq!(tab().capture_screenshot_reply(&reply), expected);
        assert_eq!(tab().try_capture_screenshot_reply(&reply), Some(expected));
    }
}

#[test]
fn a_reload_says_whether_to_skip_the_cache() {
    let command = tab().reload(true, Some("window.x = 1"));
    assert!(command.ignore_cache);
    assert_eq!(command.script_to_evaluate, Some("window.x = 1"));
    let command = tab().reload(false, None);
    assert!(!command.ignore_cache);
    assert_eq!(command.script_to_evaluate, None);
}

#[test]
fn coverage_is_tracked_by_block_and_with_call_counts() {
    let tab = tab();
    let command = tab.start_js_coverage();
    assert_eq!(command.call_count, Some(true));
    assert_eq!(command.detailed, Some(true));
    assert_eq!(tab.enable_profiler(), Enable {});
    let _ = tab.disable_profiler();
    let _ = tab.stop_js_coverage();
    let _ = tab.take_precise_js_coverage();
}
