use era_connect::logger::{feed_log_line, try_parse_xml, LogLevel, LoggerEvent, LoggerEventError};

const EVENT: &str = "<Event logger=\"net.minecraft.client.Minecraft\" timestamp=\"1700000000000\" level=\"INFO\" thread=\"Render thread\"><Message><![CDATA[Setting user: Steve]]></Message></Event>";

#[test]
fn try_parse_xml_reads_a_whole_event() {
    let event = try_parse_xml(EVENT).unwrap().unwrap();
    assert_eq!(event.level, LogLevel::Info);
    assert_eq!(event.logger, "net.minecraft.client.Minecraft");
    assert_eq!(event.thread, "Render thread");
    assert_eq!(event.timestamp, "1700000000000");
    assert_eq!(event.message.as_deref(), Some("Setting user: Steve"));
    assert_eq!(event.to_display_string(), "[Render thread/INFO]: Setting user: Steve");
}

#[test]
fn try_parse_xml_waits_for_the_rest() {
    let partial = "<Event logger=\"a\" timestamp=\"1\" level=\"WARN\" thread=\"main\">";
    assert!(try_parse_xml(partial).unwrap().is_err());
}

#[test]
fn try_parse_xml_rejects_unknown_attributes_and_levels() {
    let bad_attr = "<Event logger=\"a\" colour=\"red\"></Event>";
    assert!(matches!(try_parse_xml(bad_attr), Err(LoggerEventError::UnhandlededAttribute { ref attribute }) if attribute == "colour"));
    let bad_level = "<Event level=\"LOUD\"></Event>";
    assert!(matches!(try_parse_xml(bad_level), Err(LoggerEventError::InvalidLevel { ref level }) if level == "LOUD"));
}

#[test]
fn feed_log_line_collects_lines_until_an_event_is_whole() {
    let mut total = String::new();
    assert!(feed_log_line(&mut total, "plain output").unwrap().is_none());
    assert!(total.is_empty());
    let first = feed_log_line(&mut total, "<log4j:Event logger=\"l\" timestamp=\"2\" level=\"ERROR\" thread=\"t\">").unwrap();
    assert!(first.is_none());
    assert!(!total.is_empty());
    let second = feed_log_line(&mut total, "<log4j:Message><![CDATA[boom]]></log4j:Message>").unwrap();
    assert!(second.is_none());
    let third = feed_log_line(&mut total, "</log4j:Event>").unwrap().unwrap();
    assert_eq!(third.level, LogLevel::Error);
    assert_eq!(third.message.as_deref(), Some("boom"));
    assert!(total.is_empty());
}

#[test]
fn default_event_is_an_empty_trace() {
    let e = LoggerEvent::default();
    assert_eq!(e.level, LogLevel::Trace);
    assert!(e.message.is_none());
    assert_eq!(LogLevel::Warn.as_str(), "WARN");
}
