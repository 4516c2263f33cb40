use windows_task_scheduler::events::XmlEvent;
use windows_task_scheduler::serializer::bool_string;
use windows_task_scheduler::{
    Action, IdleSettings, MultipleInstancesPolicy, Settings, Subscription, Task, Trigger, Value,
    Version,
};

fn update_subscription(event_id: Option<isize>) -> Subscription {
    Subscription {
        log: "System".to_string(),
        source: "Microsoft-Windows-WindowsUpdateClient".to_string(),
        event_id,
    }
}

fn one_trigger_task(event_id: Option<isize>, value_queries: Vec<Value>) -> Task {
    let mut task = Task::default();
    task.triggers.push(Trigger::EventTrigger {
        enabled: true,
        subscription: update_subscription(event_id),
        value_queries,
    });
    task
}

fn between<'a>(text: &'a str, open: &str, close: &str) -> &'a str {
    let start = text.find(open).expect("opening tag") + open.len();
    let end = start + text[start..].find(close).expect("closing tag");
    &text[start..end]
}

#[test]
fn select_without_event_id() {
    let task = one_trigger_task(None, vec![]);
    let xml = task.to_xml().unwrap();
    let select = between(&xml, "Select Path=\"System\"&gt;", "&lt;/Select&gt;");
    assert_eq!(select, "*[System[Provider[@Name='Microsoft-Windows-WindowsUpdateClient']]]");
    assert!(!xml.contains("EventID"));
}

#[test]
fn select_with_event_id() {
    let task = one_trigger_task(Some(42), vec![]);
    let xml = task.to_xml().unwrap();
    let select = between(&xml, "Select Path=\"System\"&gt;", "&lt;/Select&gt;");
    assert_eq!(
        select,
        "*[System[Provider[@Name='Microsoft-Windows-WindowsUpdateClient'] and EventID=42]]"
    );
}

#[test]
fn select_text_of_negative_event_id() {
    let s = update_subscription(Some(-7));
    assert_eq!(
        s.select_text(),
        "*[System[Provider[@Name='Microsoft-Windows-WindowsUpdateClient'] and EventID=-7]]"
    );
}

#[test]
fn subscription_document_exact() {
    let s = update_subscription(None);
    assert_eq!(
        s.to_xml().unwrap(),
        "<QueryList><Query Id=\"0\" Path=\"System\"><Select Path=\"System\">\
         *[System[Provider[@Name='Microsoft-Windows-WindowsUpdateClient']]]\
         </Select></Query></QueryList>"
    );
}

#[test]
fn subscription_document_escapes_markup() {
    let s = Subscription { log: "A\"B".to_string(), source: "x&y<z".to_string(), event_id: None };
    let xml = s.to_xml().unwrap();
    assert!(xml.contains("Path=\"A&quot;B\""));
    assert!(xml.contains("@Name='x&amp;y&lt;z'"));
}

#[test]
fn exec_without_arguments() {
    let mut task = Task::default();
    task.actions.push(Action::Exec { command: "run.exe".to_string(), arguments: None });
    let xml = task.to_xml().unwrap();
    assert!(xml.contains("<Command>run.exe</Command>"));
    assert!(!xml.contains("Arguments"));
}

#[test]
fn exec_with_arguments() {
    let mut task = Task::default();
    task.actions.push(Action::Exec {
        command: "run.exe".to_string(),
        arguments: Some("x".to_string()),
    });
    let xml = task.to_xml().unwrap();
    let command_end = xml.find("</Command>").unwrap() + "</Command>".len();
    let rest = xml[command_end..].trim_start();
    assert!(rest.starts_with("<Arguments>x</Arguments>"));
}

#[test]
fn exec_events_exact() {
    let mut task = Task::default();
    task.actions.push(Action::Exec {
        command: "run.exe".to_string(),
        arguments: Some("x".to_string()),
    });
    let events = task.events(&vec![]);
    let n = events.len();
    let tail: Vec<String> = events[n - 10..].iter().map(|e| format!("{:?}", e)).collect();
    let expected: Vec<String> = vec![
        XmlEvent::StartElement { name: "Exec".to_string(), attributes: vec![] },
        XmlEvent::StartElement { name: "Command".to_string(), attributes: vec![] },
        XmlEvent::Characters("run.exe".to_string()),
        XmlEvent::EndElement,
        XmlEvent::StartElement { name: "Arguments".to_string(), attributes: vec![] },
        XmlEvent::Characters("x".to_string()),
        XmlEvent::EndElement,
        XmlEvent::EndElement,
        XmlEvent::EndElement,
        XmlEvent::EndElement,
    ]
    .iter()
    .map(|e| format!("{:?}", e))
    .collect();
    assert_eq!(tail, expected);
}

#[test]
fn empty_value_queries_write_no_element() {
    let task = one_trigger_task(None, vec![]);
    let xml = task.to_xml().unwrap();
    assert!(!xml.contains("ValueQueries"));
    assert!(!xml.contains("<Value "));
}

#[test]
fn value_queries_keep_input_order() {
    let task = one_trigger_task(
        None,
        vec![
            Value { name: "title".to_string(), value: "A".to_string() },
            Value { name: "id".to_string(), value: "B&C".to_string() },
        ],
    );
    let xml = task.to_xml().unwrap();
    assert_eq!(xml.matches("<ValueQueries>").count(), 1);
    assert_eq!(xml.matches("<Value name=").count(), 2);
    let first = xml.find("<Value name=\"title\">A</Value>").unwrap();
    let second = xml.find("<Value name=\"id\">B&amp;C</Value>").unwrap();
    assert!(first < second);
}

#[test]
fn construction_order_does_not_matter() {
    let mut a = Task::default();
    a.settings.execution_time_limit = "PT2H".to_string();
    a.settings.hidden = true;
    a.actions.push(Action::Exec { command: "a.exe".to_string(), arguments: None });
    a.triggers.push(Trigger::EventTrigger {
        enabled: false,
        subscription: update_subscription(Some(5)),
        value_queries: vec![],
    });
    let b = Task {
        settings: Settings {
            hidden: true,
            execution_time_limit: "PT2H".to_string(),
            ..Settings::default()
        },
        actions: vec![Action::Exec { command: "a.exe".to_string(), arguments: None }],
        triggers: vec![Trigger::EventTrigger {
            value_queries: vec![],
            subscription: Subscription {
                event_id: Some(5),
                source: "Microsoft-Windows-WindowsUpdateClient".to_string(),
                log: "System".to_string(),
            },
            enabled: false,
        }],
        version: Version::V1_2,
    };
    assert_eq!(a.to_xml().unwrap().as_bytes(), b.to_xml().unwrap().as_bytes());
}

#[test]
fn end_to_end_document() {
    let mut task = Task::default();
    task.triggers.push(Trigger::EventTrigger {
        enabled: true,
        subscription: update_subscription(None),
        value_queries: vec![],
    });
    task.actions.push(Action::Exec { command: "C:\\bap.exe".to_string(), arguments: None });
    task.settings.multiple_instances_policy = MultipleInstancesPolicy::Queue;
    task.settings.disallow_start_if_on_batteries = false;
    task.settings.execution_time_limit = "PT1H".to_string();
    let xml = task.to_xml().unwrap();
    assert!(xml.starts_with(
        "<Task version=\"1.2\" xmlns=\"http://schemas.microsoft.com/windows/2004/02/mit/task\">"
    ));
    for (name, text) in [
        ("MultipleInstancesPolicy", "Queue"),
        ("DisallowStartIfOnBatteries", "false"),
        ("StopIfGoingOnBatteries", "true"),
        ("AllowHardTerminate", "true"),
        ("StartWhenAvailable", "false"),
        ("RunOnlyIfNetworkAvailable", "false"),
        ("StopOnIdleEnd", "true"),
        ("RestartOnIdle", "false"),
        ("AllowStartOnDemand", "true"),
        ("Hidden", "false"),
        ("RunOnlyIfIdle", "false"),
        ("WakeToRun", "false"),
        ("ExecutionTimeLimit", "PT1H"),
        ("Priority", "7"),
    ] {
        let element = format!("<{}>{}</{}>", name, text, name);
        assert_eq!(xml.matches(&element).count(), 1, "{}", element);
    }
    let order = [
        "<Triggers>",
        "<EventTrigger>",
        "<Enabled>true</Enabled>",
        "<Subscription>",
        "</Triggers>",
        "<Settings>",
        "<MultipleInstancesPolicy>",
        "<IdleSettings>",
        "</IdleSettings>",
        "<AllowStartOnDemand>",
        "<Priority>",
        "</Settings>",
        "<Actions Context=\"Author\">",
        "<Exec>",
        "<Command>C:\\bap.exe</Command>",
        "</Actions>",
        "</Task>",
    ];
    let mut at = 0;
    for piece in order {
        let found = xml[at..].find(piece).unwrap_or_else(|| panic!("{} after {}", piece, at));
        at += found + piece.len();
    }
    assert!(xml.trim_end().ends_with("</Task>"));
}

#[test]
fn version_one_four_and_priority() {
    let mut task = Task::default();
    task.version = Version::V1_4;
    task.settings.priority = 10;
    let xml = task.to_xml().unwrap();
    assert!(xml.starts_with("<Task version=\"1.4\""));
    assert!(xml.contains("<Priority>10</Priority>"));
}

#[test]
fn defaults_match_schema() {
    let task = Task::default();
    assert_eq!(task.version, Version::V1_2);
    assert!(task.triggers.is_empty());
    assert!(task.actions.is_empty());
    let s = task.settings;
    assert_eq!(s.multiple_instances_policy, MultipleInstancesPolicy::IgnoreNew);
    assert!(s.disallow_start_if_on_batteries);
    assert!(s.stop_if_going_on_batteries);
    assert!(s.allow_hard_terminate);
    assert!(!s.start_when_available);
    assert!(!s.run_only_if_network_available);
    assert_eq!(s.idle_settings, IdleSettings { stop_on_idle_end: true, restart_on_idle: false });
    assert!(s.allow_start_on_demand);
    assert!(s.enabled);
    assert!(!s.hidden);
    assert!(!s.run_only_if_idle);
    assert!(!s.wake_to_run);
    assert_eq!(s.execution_time_limit, "PT72H");
    assert_eq!(s.priority, 7);
}

#[test]
fn scalar_texts() {
    assert_eq!(Version::V1_2.to_string(), "1.2");
    assert_eq!(Version::V1_4.to_string(), "1.4");
    assert_eq!(MultipleInstancesPolicy::IgnoreNew.to_string(), "IgnoreNew");
    assert_eq!(MultipleInstancesPolicy::Queue.to_string(), "Queue");
    assert_eq!(bool_string(true), "true");
    assert_eq!(bool_string(false), "false");
}
