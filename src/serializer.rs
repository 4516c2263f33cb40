use vstd::prelude::*;
use crate::numerals::{int_text, nat_text, signed_text, unsigned_text};
use crate::emitter::{document_text, emit_document};
use crate::events::{
    attribute_view, attributes_view, balanced, events_view, keeps_depth, open_count, push_end,
    push_event, push_start, push_start_with, push_text_element, start_of, text_element, writable,
    EventModel, SerializationError, XmlEvent,
};
use crate::types::{
    policy_text, version_text, Action, Settings, Subscription, Task, Trigger, Value,
};

verus! {

/// Namespace of the task-scheduler schema, carried by the root element.
pub open spec fn task_namespace() -> Seq<char> {
    "http://schemas.microsoft.com/windows/2004/02/mit/task"@
}

/// Text of a boolean: lowercase `true` or `false`.
pub open spec fn bool_text(b: bool) -> Seq<char> {
    if b {
        "true"@
    } else {
        "false"@
    }
}

/// The event query of a subscription: all events of its provider, or only
/// those with its event id.
pub open spec fn select_text(s: Subscription) -> Seq<char> {
    match s.event_id {
        None => "*[System[Provider[@Name='"@ + s.source@ + "']]]"@,
        Some(id) => "*[System[Provider[@Name='"@ + s.source@ + "'] and EventID="@ + int_text(
            id as int,
        ) + "]]"@,
    }
}

/// `<QueryList><Query Id="0" Path=log><Select Path=log>query</Select></Query></QueryList>`
pub open spec fn subscription_events(s: Subscription) -> Seq<EventModel> {
    seq![
        start_of("QueryList"@),
        EventModel::Start { name: "Query"@, attributes: seq![("Id"@, "0"@), ("Path"@, s.log@)] },
        EventModel::Start { name: "Select"@, attributes: seq![("Path"@, s.log@)] },
        EventModel::Text(select_text(s)),
        EventModel::End,
        EventModel::End,
        EventModel::End,
    ]
}

/// The document written for a subscription, without indentation.
pub open spec fn subscription_document(s: Subscription) -> Seq<char> {
    document_text(false, subscription_events(s))
}

/// `<Value name=..>value</Value>` for one extraction expression.
pub open spec fn value_element(v: Value) -> Seq<EventModel> {
    seq![
        EventModel::Start { name: "Value"@, attributes: seq![("name"@, v.name@)] },
        EventModel::Text(v.value@),
        EventModel::End,
    ]
}

/// One `Value` element per entry, in order.
pub open spec fn values_events(vs: Seq<Value>) -> Seq<EventModel>
    decreases vs.len(),
{
    if vs.len() == 0 {
        seq![]
    } else {
        values_events(vs.drop_last()) + value_element(vs.last())
    }
}

/// Nothing for no value; otherwise a `ValueQueries` element around the values.
pub open spec fn value_queries_events(vs: Seq<Value>) -> Seq<EventModel> {
    if vs.len() == 0 {
        seq![]
    } else {
        seq![start_of("ValueQueries"@)] + values_events(vs) + seq![EventModel::End]
    }
}

/// The element of one trigger, `doc` being its subscription's document.
pub open spec fn trigger_events(t: Trigger, doc: Seq<char>) -> Seq<EventModel> {
    match t {
        Trigger::EventTrigger { enabled, subscription, value_queries } => seq![
            start_of("EventTrigger"@),
        ] + text_element("Enabled"@, bool_text(enabled)) + text_element("Subscription"@, doc)
            + value_queries_events(value_queries@) + seq![EventModel::End],
    }
}

/// The elements of the triggers in order, each with the document at its index.
pub open spec fn triggers_events(ts: Seq<Trigger>, docs: Seq<Seq<char>>) -> Seq<EventModel>
    decreases ts.len(),
{
    if ts.len() == 0 {
        seq![]
    } else {
        triggers_events(ts.drop_last(), docs.take(ts.len() - 1)) + trigger_events(
            ts.last(),
            docs[ts.len() - 1],
        )
    }
}

/// The `Arguments` element when there are arguments, nothing otherwise.
pub open spec fn arguments_events(a: Option<String>) -> Seq<EventModel> {
    match a {
        Some(x) => text_element("Arguments"@, x@),
        None => seq![],
    }
}

/// The element of one action.
pub open spec fn action_events(a: Action) -> Seq<EventModel> {
    match a {
        Action::Exec { command, arguments } => seq![start_of("Exec"@)] + text_element(
            "Command"@,
            command@,
        ) + arguments_events(arguments) + seq![EventModel::End],
    }
}

/// The elements of the actions, in order.
pub open spec fn actions_events(acts: Seq<Action>) -> Seq<EventModel>
    decreases acts.len(),
{
    if acts.len() == 0 {
        seq![]
    } else {
        actions_events(acts.drop_last()) + action_events(acts.last())
    }
}

/// The `Settings` element, its children in schema order.
pub open spec fn settings_events(s: Settings) -> Seq<EventModel> {
    seq![start_of("Settings"@)] + power_events(s) + idle_events(s) + run_events(s) + seq![
        EventModel::End,
    ]
}

/// The instance policy and the power and availability flags.
pub open spec fn power_events(s: Settings) -> Seq<EventModel> {
    text_element("MultipleInstancesPolicy"@, policy_text(s.multiple_instances_policy))
        + text_element("DisallowStartIfOnBatteries"@, bool_text(s.disallow_start_if_on_batteries))
        + text_element("StopIfGoingOnBatteries"@, bool_text(s.stop_if_going_on_batteries))
        + text_element("AllowHardTerminate"@, bool_text(s.allow_hard_terminate))
        + text_element("StartWhenAvailable"@, bool_text(s.start_when_available))
        + text_element("RunOnlyIfNetworkAvailable"@, bool_text(s.run_only_if_network_available))
}

/// The `IdleSettings` element.
pub open spec fn idle_events(s: Settings) -> Seq<EventModel> {
    seq![start_of("IdleSettings"@)]
        + text_element("StopOnIdleEnd"@, bool_text(s.idle_settings.stop_on_idle_end))
        + text_element("RestartOnIdle"@, bool_text(s.idle_settings.restart_on_idle))
        + seq![EventModel::End]
}

/// The run flags, the time limit and the priority.
pub open spec fn run_events(s: Settings) -> Seq<EventModel> {
    text_element("AllowStartOnDemand"@, bool_text(s.allow_start_on_demand))
        + text_element("Enabled"@, bool_text(s.enabled))
        + text_element("Hidden"@, bool_text(s.hidden))
        + text_element("RunOnlyIfIdle"@, bool_text(s.run_only_if_idle))
        + text_element("WakeToRun"@, bool_text(s.wake_to_run))
        + text_element("ExecutionTimeLimit"@, s.execution_time_limit@)
        + text_element("Priority"@, nat_text(s.priority as nat))
}

/// The whole task document as events: root with version and namespace,
/// then triggers, settings and actions.
pub open spec fn task_events(t: Task, docs: Seq<Seq<char>>) -> Seq<EventModel> {
    seq![
        EventModel::Start {
            name: "Task"@,
            attributes: seq![("version"@, version_text(t.version)), ("xmlns"@, task_namespace())],
        },
        start_of("Triggers"@),
    ] + triggers_events(t.triggers@, docs) + seq![EventModel::End] + settings_events(t.settings)
        + seq![EventModel::Start { name: "Actions"@, attributes: seq![("Context"@, "Author"@)] }]
        + actions_events(t.actions@) + seq![EventModel::End, EventModel::End]
}

/// The subscription of a trigger.
pub open spec fn trigger_subscription(t: Trigger) -> Subscription {
    match t {
        Trigger::EventTrigger { subscription, .. } => subscription,
    }
}

/// The subscription document of each trigger, in order.
pub open spec fn subscription_documents(ts: Seq<Trigger>) -> Seq<Seq<char>> {
    ts.map_values(|t: Trigger| subscription_document(trigger_subscription(t)))
}

/// The indented document of a task.
pub open spec fn task_document(t: Task) -> Seq<char> {
    document_text(true, task_events(t, subscription_documents(t.triggers@)))
}

/// `true` or `false`.
pub fn bool_string(b: bool) -> (r: String)
    ensures
        r@ == bool_text(b),
{
    if b {
        String::from_str("true")
    } else {
        String::from_str("false")
    }
}

fn pair(k: &str, v: String) -> (r: (String, String))
    ensures
        attribute_view(r) == (k@, v@),
{
    (String::from_str(k), v)
}

impl Subscription {
    /// The event query of this subscription.
    pub fn select_text(&self) -> (r: String)
        ensures
            r@ == select_text(*self),
    {
        let mut s = String::from_str("*[System[Provider[@Name='");
        s.append(self.source.as_str());
        match self.event_id {
            None => {
                s.append("']]]");
            },
            Some(id) => {
                s.append("'] and EventID=");
                let digits = signed_text(id);
                s.append(digits.as_str());
                s.append("]]");
            },
        }
        s
    }

    /// The events of this subscription's query document.
    pub fn events(&self) -> (r: Vec<XmlEvent>)
        ensures
            events_view(r@) == subscription_events(*self),
            writable(events_view(r@)),
            balanced(events_view(r@)),
    {
        let mut v: Vec<XmlEvent> = Vec::new();
        assert(writable(events_view(v@)));
        assert(balanced(events_view(v@))) by {
            assert forall|i: int| 0 <= i <= events_view(v@).len() implies #[trigger] open_count(
                events_view(v@).take(i),
            ) >= 0 by {
                assert(events_view(v@).take(i) =~= Seq::<EventModel>::empty());
            }
        }
        push_start(&mut v, "QueryList");
        let query = vec![pair("Id", String::from_str("0")), pair("Path", self.log.clone())];
        assert(attributes_view(query@) =~= seq![("Id"@, "0"@), ("Path"@, self.log@)]);
        push_start_with(&mut v, "Query", query);
        let select = vec![pair("Path", self.log.clone())];
        assert(attributes_view(select@) =~= seq![("Path"@, self.log@)]);
        push_start_with(&mut v, "Select", select);
        push_event(&mut v, XmlEvent::Characters(self.select_text()));
        push_end(&mut v);
        push_end(&mut v);
        push_end(&mut v);
        assert(events_view(v@) =~= subscription_events(*self));
        v
    }

    /// The query document of this subscription, without indentation.
    pub fn to_xml(&self) -> (r: Result<String, SerializationError>)
        ensures
            r is Ok,
            r->Ok_0@ == subscription_document(*self),
    {
        let events = self.events();
        emit_document(&events, false)
    }
}

/// Appends the `ValueQueries` element of `vs`, or nothing when it is empty.
fn push_value_queries(v: &mut Vec<XmlEvent>, vs: &Vec<Value>)
    ensures
        events_view(final(v)@) == events_view(old(v)@) + value_queries_events(vs@),
        writable(events_view(old(v)@)) ==> writable(events_view(final(v)@)),
        keeps_depth(events_view(old(v)@), events_view(final(v)@)),
{
    if vs.len() == 0 {
        assert(events_view(v@) =~= events_view(v@) + value_queries_events(vs@));
        return;
    }
    push_start(v, "ValueQueries");
    let ghost prefix = events_view(v@);
    let mut j: usize = 0;
    while j < vs.len()
        invariant
            j <= vs@.len(),
            events_view(v@) == prefix + values_events(vs@.take(j as int)),
            writable(events_view(old(v)@)) ==> writable(events_view(v@)),
            open_count(events_view(v@)) == open_count(events_view(old(v)@)) + 1,
            balanced(events_view(old(v)@)) && open_count(events_view(old(v)@)) >= 0 ==> balanced(
                events_view(v@),
            ),
        decreases vs@.len() - j,
    {
        let value = &vs[j];
        let name = vec![pair("name", value.name.clone())];
        assert(attributes_view(name@) =~= seq![("name"@, value.name@)]);
        push_start_with(v, "Value", name);
        push_event(v, XmlEvent::Characters(value.value.clone()));
        push_end(v);
        assert(vs@.take(j + 1).drop_last() =~= vs@.take(j as int));
        assert(events_view(v@) =~= prefix + values_events(vs@.take(j + 1)));
        j = j + 1;
    }
    assert(vs@.take(j as int) =~= vs@);
    push_end(v);
    assert(events_view(v@) =~= events_view(old(v)@) + value_queries_events(vs@));
}

/// Appends the element of one trigger.
fn push_trigger(v: &mut Vec<XmlEvent>, t: &Trigger, doc: &String)
    ensures
        events_view(final(v)@) == events_view(old(v)@) + trigger_events(*t, doc@),
        writable(events_view(old(v)@)) ==> writable(events_view(final(v)@)),
        keeps_depth(events_view(old(v)@), events_view(final(v)@)),
{
    match t {
        Trigger::EventTrigger { enabled, subscription, value_queries } => {
            push_start(v, "EventTrigger");
            push_text_element(v, "Enabled", bool_string(*enabled));
            push_text_element(v, "Subscription", doc.clone());
            push_value_queries(v, value_queries);
            push_end(v);
            assert(events_view(v@) =~= events_view(old(v)@) + trigger_events(*t, doc@));
        },
    }
}

/// Appends the element of one action.
fn push_action(v: &mut Vec<XmlEvent>, a: &Action)
    ensures
        events_view(final(v)@) == events_view(old(v)@) + action_events(*a),
        writable(events_view(old(v)@)) ==> writable(events_view(final(v)@)),
        keeps_depth(events_view(old(v)@), events_view(final(v)@)),
{
    match a {
        Action::Exec { command, arguments } => {
            push_start(v, "Exec");
            push_text_element(v, "Command", command.clone());
            match arguments {
                Some(x) => {
                    push_text_element(v, "Arguments", x.clone());
                },
                None => {},
            }
            push_end(v);
            assert(events_view(v@) =~= events_view(old(v)@) + action_events(*a));
        },
    }
}

/// Appends the instance policy and the power flags.
fn push_power(v: &mut Vec<XmlEvent>, s: &Settings)
    ensures
        events_view(final(v)@) == events_view(old(v)@) + power_events(*s),
        writable(events_view(old(v)@)) ==> writable(events_view(final(v)@)),
        keeps_depth(events_view(old(v)@), events_view(final(v)@)),
{
    let ghost o = events_view(v@);
    push_text_element(v, "MultipleInstancesPolicy", s.multiple_instances_policy.to_string());
    push_text_element(v, "DisallowStartIfOnBatteries", bool_string(s.disallow_start_if_on_batteries));
    push_text_element(v, "StopIfGoingOnBatteries", bool_string(s.stop_if_going_on_batteries));
    let ghost mid = events_view(v@);
    assert(mid =~= o + (text_element("MultipleInstancesPolicy"@, policy_text(s.multiple_instances_policy))
        + text_element("DisallowStartIfOnBatteries"@, bool_text(s.disallow_start_if_on_batteries))
        + text_element("StopIfGoingOnBatteries"@, bool_text(s.stop_if_going_on_batteries))));
    push_text_element(v, "AllowHardTerminate", bool_string(s.allow_hard_terminate));
    push_text_element(v, "StartWhenAvailable", bool_string(s.start_when_available));
    push_text_element(v, "RunOnlyIfNetworkAvailable", bool_string(s.run_only_if_network_available));
    assert(events_view(v@) =~= o + power_events(*s));
}

/// Appends the `IdleSettings` element.
fn push_idle(v: &mut Vec<XmlEvent>, s: &Settings)
    ensures
        events_view(final(v)@) == events_view(old(v)@) + idle_events(*s),
        writable(events_view(old(v)@)) ==> writable(events_view(final(v)@)),
        keeps_depth(events_view(old(v)@), events_view(final(v)@)),
{
    push_start(v, "IdleSettings");
    push_text_element(v, "StopOnIdleEnd", bool_string(s.idle_settings.stop_on_idle_end));
    push_text_element(v, "RestartOnIdle", bool_string(s.idle_settings.restart_on_idle));
    push_end(v);
    assert(events_view(v@) =~= events_view(old(v)@) + idle_events(*s));
}

/// Appends the run flags, the time limit and the priority.
fn push_run(v: &mut Vec<XmlEvent>, s: &Settings)
    ensures
        events_view(final(v)@) == events_view(old(v)@) + run_events(*s),
        writable(events_view(old(v)@)) ==> writable(events_view(final(v)@)),
        keeps_depth(events_view(old(v)@), events_view(final(v)@)),
{
    let ghost o = events_view(v@);
    push_text_element(v, "AllowStartOnDemand", bool_string(s.allow_start_on_demand));
    push_text_element(v, "Enabled", bool_string(s.enabled));
    push_text_element(v, "Hidden", bool_string(s.hidden));
    let ghost mid = events_view(v@);
    assert(mid =~= o + (text_element("AllowStartOnDemand"@, bool_text(s.allow_start_on_demand))
        + text_element("Enabled"@, bool_text(s.enabled))
        + text_element("Hidden"@, bool_text(s.hidden))));
    push_text_element(v, "RunOnlyIfIdle", bool_string(s.run_only_if_idle));
    push_text_element(v, "WakeToRun", bool_string(s.wake_to_run));
    push_text_element(v, "ExecutionTimeLimit", s.execution_time_limit.clone());
    push_text_element(v, "Priority", unsigned_text(s.priority as u64));
    assert(events_view(v@) =~= o + run_events(*s));
}

/// Appends the `Settings` element.
fn push_settings(v: &mut Vec<XmlEvent>, s: &Settings)
    ensures
        events_view(final(v)@) == events_view(old(v)@) + settings_events(*s),
        writable(events_view(old(v)@)) ==> writable(events_view(final(v)@)),
        keeps_depth(events_view(old(v)@), events_view(final(v)@)),
{
    push_start(v, "Settings");
    push_power(v, s);
    push_idle(v, s);
    push_run(v, s);
    push_end(v);
    assert(events_view(v@) =~= events_view(old(v)@) + settings_events(*s));
}

impl Task {
    /// The events of the task's document, `subscriptions[i]` being the
    /// subscription document of trigger `i`.
    pub fn events(&self, subscriptions: &Vec<String>) -> (r: Vec<XmlEvent>)
        requires
            subscriptions@.len() == self.triggers@.len(),
        ensures
            events_view(r@) == task_events(*self, subscriptions@.map_values(|s: String| s@)),
            writable(events_view(r@)),
            balanced(events_view(r@)),
    {
        let ghost docs = subscriptions@.map_values(|s: String| s@);
        let mut v: Vec<XmlEvent> = Vec::new();
        assert(writable(events_view(v@)));
        assert(balanced(events_view(v@))) by {
            assert forall|i: int| 0 <= i <= events_view(v@).len() implies #[trigger] open_count(
                events_view(v@).take(i),
            ) >= 0 by {
                assert(events_view(v@).take(i) =~= Seq::<EventModel>::empty());
            }
        }
        let root = vec![
            pair("version", self.version.to_string()),
            pair("xmlns", String::from_str("http://schemas.microsoft.com/windows/2004/02/mit/task")),
        ];
        assert(attributes_view(root@) =~= seq![
            ("version"@, version_text(self.version)),
            ("xmlns"@, task_namespace()),
        ]);
        push_start_with(&mut v, "Task", root);
        push_start(&mut v, "Triggers");
        let ghost prefix = events_view(v@);
        let mut i: usize = 0;
        while i < self.triggers.len()
            invariant
                i <= self.triggers@.len(),
                subscriptions@.len() == self.triggers@.len(),
                docs == subscriptions@.map_values(|s: String| s@),
                events_view(v@) == prefix + triggers_events(
                    self.triggers@.take(i as int),
                    docs.take(i as int),
                ),
                writable(events_view(v@)),
                balanced(events_view(v@)),
                open_count(events_view(v@)) == 2,
            decreases self.triggers@.len() - i,
        {
            push_trigger(&mut v, &self.triggers[i], &subscriptions[i]);
            assert(self.triggers@.take(i + 1).drop_last() =~= self.triggers@.take(i as int));
            assert(docs.take(i + 1).take(i as int) =~= docs.take(i as int));
            assert(events_view(v@) =~= prefix + triggers_events(
                self.triggers@.take(i + 1),
                docs.take(i + 1),
            ));
            i = i + 1;
        }
        assert(self.triggers@.take(i as int) =~= self.triggers@);
        assert(docs.take(i as int) =~= docs);
        push_end(&mut v);
        push_settings(&mut v, &self.settings);
        let context = vec![pair("Context", String::from_str("Author"))];
        assert(attributes_view(context@) =~= seq![("Context"@, "Author"@)]);
        push_start_with(&mut v, "Actions", context);
        let ghost middle = events_view(v@);
        let mut k: usize = 0;
        while k < self.actions.len()
            invariant
                k <= self.actions@.len(),
                events_view(v@) == middle + actions_events(self.actions@.take(k as int)),
                writable(events_view(v@)),
                balanced(events_view(v@)),
                open_count(events_view(v@)) == 2,
            decreases self.actions@.len() - k,
        {
            push_action(&mut v, &self.actions[k]);
            assert(self.actions@.take(k + 1).drop_last() =~= self.actions@.take(k as int));
            assert(events_view(v@) =~= middle + actions_events(self.actions@.take(k + 1)));
            k = k + 1;
        }
        assert(self.actions@.take(k as int) =~= self.actions@);
        push_end(&mut v);
        push_end(&mut v);
        assert(events_view(v@) =~= task_events(*self, docs));
        v
    }

    /// The indented XML document of the task.
    pub fn to_xml(&self) -> (r: Result<String, SerializationError>)
        ensures
            r is Ok,
            r->Ok_0@ == task_document(*self),
    {
        let ghost docs = subscription_documents(self.triggers@);
        let mut subscriptions: Vec<String> = Vec::new();
        let mut i: usize = 0;
        while i < self.triggers.len()
            invariant
                i <= self.triggers@.len(),
                subscriptions@.len() == i,
                subscriptions@.map_values(|s: String| s@) == docs.take(i as int),
                docs == subscription_documents(self.triggers@),
            decreases self.triggers@.len() - i,
        {
            let doc = match &self.triggers[i] {
                Trigger::EventTrigger { subscription, .. } => match subscription.to_xml() {
                    Ok(d) => d,
                    Err(e) => {
                        return Err(e);
                    },
                },
            };
            assert(doc@ == subscription_document(trigger_subscription(self.triggers@[i as int])));
            subscriptions.push(doc);
            assert(subscriptions@.map_values(|s: String| s@) =~= docs.take(i + 1));
            i = i + 1;
        }
        assert(docs.take(i as int) =~= docs);
        let events = self.events(&subscriptions);
        emit_document(&events, true)
    }
}

} // verus!
