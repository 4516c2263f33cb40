use vstd::prelude::*;
use crate::numerals::{hex_string, hex_text};
use crate::wide::{nul_terminated_utf16, utf16_units};

verus! {

/// Failure reported by a native call: its status code, unchanged, and a
/// short label of the step that failed, when it has one.
#[derive(Debug)]
pub struct WinError {
    pub result: i32,
    pub message: Option<String>,
}

/// The mathematical form of a [`WinError`].
pub struct ErrorModel {
    pub result: i32,
    pub message: Option<Seq<char>>,
}

impl View for WinError {
    type V = ErrorModel;

    open spec fn view(&self) -> ErrorModel {
        ErrorModel {
            result: self.result,
            message: match self.message {
                Some(m) => Some(m@),
                None => None,
            },
        }
    }
}

/// The bit pattern of a status code, as an unsigned number.
pub open spec fn status_bits(result: i32) -> nat {
    if result < 0 {
        (result + 0x1_0000_0000) as nat
    } else {
        result as nat
    }
}

/// `WinError 0x<code> : <label>`, or `WinError <code>` without a label; the
/// code in upper-case hexadecimal.
pub open spec fn error_text(e: ErrorModel) -> Seq<char> {
    match e.message {
        Some(m) => "WinError 0x"@ + hex_text(status_bits(e.result)) + " : "@ + m,
        None => "WinError "@ + hex_text(status_bits(e.result)),
    }
}

impl WinError {
    /// The text of the error, as in `error_text`.
    pub fn to_string(&self) -> (r: String)
        ensures
            r@ == error_text(self@),
    {
        let bits: u32 = if self.result < 0 {
            (self.result as i64 + 0x1_0000_0000i64) as u32
        } else {
            self.result as u32
        };
        let code = hex_string(bits);
        match &self.message {
            Some(m) => {
                let mut s = String::from_str("WinError 0x");
                s.append(code.as_str());
                s.append(" : ");
                s.append(m.as_str());
                s
            },
            None => {
                let mut s = String::from_str("WinError ");
                s.append(code.as_str());
                s
            },
        }
    }
}

/// The folder that sessions work in: the root, `\`.
pub open spec fn root_folder_path() -> Seq<char> {
    "\\"@
}

fn root_folder() -> (r: Vec<u16>)
    ensures
        r@ == utf16_units(root_folder_path()).push(0u16),
{
    proof {
        reveal_strlit("\\");
    }
    assert(!root_folder_path().contains('\0'));
    nul_terminated_utf16("\\").unwrap()
}

/// What a session does in the root folder.
#[derive(Debug, Clone, Copy, PartialEq, Eq, Structural)]
pub enum Operation {
    /// Replace any task of the name with a newly registered definition.
    Create,
    /// Delete the task of the name.
    Delete,
}

/// A native resource that a session holds until it releases it.
#[derive(Debug, Clone, Copy, PartialEq, Eq, Structural)]
pub enum Resource {
    /// The process-wide native subsystem context.
    Context,
    /// The handle to the scheduling service.
    Service,
    /// The handle to the target folder.
    Folder,
    /// The new task-definition handle.
    Definition,
    /// The handle to the registered task.
    Registered,
}

/// One call that the native layer is asked to make.
#[derive(Debug, Clone, Copy, PartialEq, Eq, Structural)]
pub enum NativeCall {
    /// Enter the native subsystem context.
    InitializeContext,
    /// Set the baseline security of later calls.
    InitializeSecurity,
    /// Create a handle to the scheduling service.
    CreateService,
    /// Connect the service with the ambient identity.
    Connect,
    /// Open the session's folder.
    GetFolder,
    /// Delete the task of the session's name in the folder.
    DeleteTask,
    /// Create an empty task definition.
    NewTask,
    /// Put the session's XML text into the definition.
    PutXml,
    /// Register the definition under the session's name, creating or
    /// updating, with interactive logon.
    Register,
    /// Release a held resource.
    Release(Resource),
}

/// The calls of an operation, in order, before anything is released.
pub open spec fn plan(op: Operation) -> Seq<NativeCall> {
    let connect = seq![
        NativeCall::InitializeContext,
        NativeCall::InitializeSecurity,
        NativeCall::CreateService,
        NativeCall::Connect,
        NativeCall::GetFolder,
        NativeCall::DeleteTask,
    ];
    match op {
        Operation::Create => connect + seq![
            NativeCall::NewTask,
            NativeCall::PutXml,
            NativeCall::Register,
        ],
        Operation::Delete => connect,
    }
}

/// The resource that a call holds once it succeeds.
pub open spec fn acquires(c: NativeCall) -> Option<Resource> {
    match c {
        NativeCall::InitializeContext => Some(Resource::Context),
        NativeCall::CreateService => Some(Resource::Service),
        NativeCall::GetFolder => Some(Resource::Folder),
        NativeCall::NewTask => Some(Resource::Definition),
        NativeCall::Register => Some(Resource::Registered),
        _ => None,
    }
}

/// The resources that a run of successful calls holds, in order of acquisition.
pub open spec fn acquired_by(calls: Seq<NativeCall>) -> Seq<Resource>
    decreases calls.len(),
{
    if calls.len() == 0 {
        seq![]
    } else {
        acquired_by(calls.drop_last()) + match acquires(calls.last()) {
            Some(r) => seq![r],
            None => seq![],
        }
    }
}

/// Whether a failure of the call ends the operation: all do, but the
/// delete that clears the way for a new registration.
pub open spec fn fatal(op: Operation, c: NativeCall) -> bool {
    !(op == Operation::Create && c == NativeCall::DeleteTask)
}

/// The label that an error of a call carries.
pub open spec fn label(c: NativeCall) -> Option<Seq<char>> {
    match c {
        NativeCall::InitializeContext => Some("CoInitializeEx failed"@),
        NativeCall::InitializeSecurity => Some("CoInitializeSecurity failed"@),
        NativeCall::CreateService => Some("Failed to create an instance of ITaskService"@),
        NativeCall::Connect => Some("ITaskService::Connect failed"@),
        NativeCall::GetFolder => Some("Cannot get Root Folder pointer"@),
        NativeCall::NewTask => Some("Failed to create a task definition"@),
        NativeCall::Register => Some("Error saving the Task"@),
        _ => None,
    }
}

/// The release calls of held resources: the last acquired first.
pub open spec fn releases(held: Seq<Resource>) -> Seq<NativeCall>
    decreases held.len(),
{
    if held.len() == 0 {
        seq![]
    } else {
        seq![NativeCall::Release(held.last())] + releases(held.drop_last())
    }
}

/// The mathematical form of a [`Session`].
pub struct SessionModel {
    pub operation: Operation,
    pub position: nat,
    pub held: Seq<Resource>,
    pub failure: Option<ErrorModel>,
}

/// A fresh session of an operation: nothing called, nothing held.
pub open spec fn initial(op: Operation) -> SessionModel {
    SessionModel { operation: op, position: 0, held: seq![], failure: None }
}

/// The call a session asks for next: the next planned call while nothing
/// failed, then the release of the last resource still held; none when done.
pub open spec fn next_call_of(m: SessionModel) -> Option<NativeCall> {
    if m.failure is None && m.position < plan(m.operation).len() {
        Some(plan(m.operation)[m.position as int])
    } else if m.held.len() > 0 {
        Some(NativeCall::Release(m.held.last()))
    } else {
        None
    }
}

/// The session after the native layer reports `status` for the call it was
/// asked for. A negative status is a failure; a release always takes effect.
pub open spec fn after_status(m: SessionModel, status: i32) -> SessionModel {
    match next_call_of(m) {
        Some(NativeCall::Release(_)) => SessionModel { held: m.held.drop_last(), ..m },
        Some(c) => if status < 0 && fatal(m.operation, c) {
            SessionModel { failure: Some(ErrorModel { result: status, message: label(c) }), ..m }
        } else {
            SessionModel {
                position: m.position + 1,
                held: match acquires(c) {
                    Some(r) => m.held.push(r),
                    None => m.held,
                },
                ..m
            }
        },
        None => m,
    }
}

/// The result of a finished session; none while it still asks for calls.
pub open spec fn outcome_of(m: SessionModel) -> Option<Result<(), ErrorModel>> {
    if next_call_of(m) is Some {
        None
    } else {
        match m.failure {
            Some(e) => Some(Err(e)),
            None => Some(Ok(())),
        }
    }
}

/// Feeds `statuses` to a session, one for each call it asks for, until it
/// stops asking: the session reached, and the calls asked for, in order.
pub open spec fn run(m: SessionModel, statuses: Seq<i32>) -> (SessionModel, Seq<NativeCall>)
    decreases statuses.len(),
{
    if statuses.len() == 0 || next_call_of(m) is None {
        (m, seq![])
    } else {
        let (end, calls) = run(after_status(m, statuses[0]), statuses.drop_first());
        (end, seq![next_call_of(m)->Some_0] + calls)
    }
}

/// Defers the release of a freshly acquired resource: it joins the unwind
/// list, and is released before every resource acquired earlier.
pub fn ondrop(unwind: &mut Vec<Resource>, resource: Resource)
    ensures
        final(unwind)@ == old(unwind)@.push(resource),
{
    unwind.push(resource);
}

/// The registration of a task, or its deletion, as a sequence of native
/// calls: the caller makes the call that `next_call` names and reports its
/// status with `on_status`, until `outcome` is known.
#[derive(Debug)]
pub struct Session {
    pub operation: Operation,
    pub position: usize,
    pub held: Vec<Resource>,
    pub failure: Option<WinError>,
    /// The folder path, as nul-terminated UTF-16.
    pub folder: Vec<u16>,
    /// The task name, as nul-terminated UTF-16.
    pub task_name: Vec<u16>,
    /// The task document, as nul-terminated UTF-16; empty for a deletion.
    pub xml: Vec<u16>,
}

impl View for Session {
    type V = SessionModel;

    open spec fn view(&self) -> SessionModel {
        SessionModel {
            operation: self.operation,
            position: self.position as nat,
            held: self.held@,
            failure: match self.failure {
                Some(e) => Some(e@),
                None => None,
            },
        }
    }
}

fn plan_len(op: Operation) -> (r: usize)
    ensures
        r == plan(op).len(),
{
    match op {
        Operation::Create => 9,
        Operation::Delete => 6,
    }
}

fn plan_call(op: Operation, i: usize) -> (r: NativeCall)
    requires
        i < plan(op).len(),
    ensures
        r == plan(op)[i as int],
{
    if i == 0 {
        NativeCall::InitializeContext
    } else if i == 1 {
        NativeCall::InitializeSecurity
    } else if i == 2 {
        NativeCall::CreateService
    } else if i == 3 {
        NativeCall::Connect
    } else if i == 4 {
        NativeCall::GetFolder
    } else if i == 5 {
        NativeCall::DeleteTask
    } else if i == 6 {
        NativeCall::NewTask
    } else if i == 7 {
        NativeCall::PutXml
    } else {
        NativeCall::Register
    }
}

fn label_of(c: NativeCall) -> (r: Option<String>)
    ensures
        match r {
            Some(s) => label(c) == Some(s@),
            None => label(c) is None,
        },
{
    match c {
        NativeCall::InitializeContext => Some(String::from_str("CoInitializeEx failed")),
        NativeCall::InitializeSecurity => Some(String::from_str("CoInitializeSecurity failed")),
        NativeCall::CreateService => Some(
            String::from_str("Failed to create an instance of ITaskService"),
        ),
        NativeCall::Connect => Some(String::from_str("ITaskService::Connect failed")),
        NativeCall::GetFolder => Some(String::from_str("Cannot get Root Folder pointer")),
        NativeCall::NewTask => Some(String::from_str("Failed to create a task definition")),
        NativeCall::Register => Some(String::from_str("Error saving the Task")),
        _ => None,
    }
}

impl Session {
    /// The session has not gone past the end of its plan.
    pub open spec fn wf(&self) -> bool {
        self.position <= plan(self.operation).len()
    }

    /// A session that registers `xml` as the task `task_name` in the root
    /// folder, replacing any task of that name.
    pub fn create(task_name: &str, xml: &str) -> (r: Session)
        requires
            !task_name@.contains('\0'),
            !xml@.contains('\0'),
        ensures
            r@ == initial(Operation::Create),
            r.wf(),
            r.folder@ == utf16_units(root_folder_path()).push(0u16),
            r.task_name@ == utf16_units(task_name@).push(0u16),
            r.xml@ == utf16_units(xml@).push(0u16),
    {
        let s = Session {
            operation: Operation::Create,
            position: 0,
            held: Vec::new(),
            failure: None,
            folder: root_folder(),
            task_name: nul_terminated_utf16(task_name).unwrap(),
            xml: nul_terminated_utf16(xml).unwrap(),
        };
        assert(s@.held =~= initial(Operation::Create).held);
        s
    }

    /// A session that deletes the task `task_name` from the root folder.
    pub fn delete(task_name: &str) -> (r: Session)
        requires
            !task_name@.contains('\0'),
        ensures
            r@ == initial(Operation::Delete),
            r.wf(),
            r.folder@ == utf16_units(root_folder_path()).push(0u16),
            r.task_name@ == utf16_units(task_name@).push(0u16),
            r.xml@.len() == 0,
    {
        let s = Session {
            operation: Operation::Delete,
            position: 0,
            held: Vec::new(),
            failure: None,
            folder: root_folder(),
            task_name: nul_terminated_utf16(task_name).unwrap(),
            xml: Vec::new(),
        };
        assert(s@.held =~= initial(Operation::Delete).held);
        s
    }

    /// The call to make next, if any.
    pub fn next_call(&self) -> (r: Option<NativeCall>)
        requires
            self.wf(),
        ensures
            r == next_call_of(self@),
    {
        if self.failure.is_none() && self.position < plan_len(self.operation) {
            Some(plan_call(self.operation, self.position))
        } else if self.held.len() > 0 {
            Some(NativeCall::Release(self.held[self.held.len() - 1]))
        } else {
            None
        }
    }

    /// Takes in the status that the native layer reported for the call that
    /// `next_call` named.
    pub fn on_status(&mut self, status: i32)
        requires
            old(self).wf(),
        ensures
            final(self)@ == after_status(old(self)@, status),
            final(self).wf(),
            final(self).folder == old(self).folder,
            final(self).task_name == old(self).task_name,
            final(self).xml == old(self).xml,
    {
        match self.next_call() {
            Some(NativeCall::Release(_)) => {
                self.held.pop();
            },
            Some(c) => {
                if status < 0 && !(self.operation == Operation::Create && c
                    == NativeCall::DeleteTask) {
                    self.failure = Some(WinError { result: status, message: label_of(c) });
                } else {
                    match c {
                        NativeCall::InitializeContext => ondrop(&mut self.held, Resource::Context),
                        NativeCall::CreateService => ondrop(&mut self.held, Resource::Service),
                        NativeCall::GetFolder => ondrop(&mut self.held, Resource::Folder),
                        NativeCall::NewTask => ondrop(&mut self.held, Resource::Definition),
                        NativeCall::Register => ondrop(&mut self.held, Resource::Registered),
                        _ => {},
                    }
                    self.position = self.position + 1;
                }
            },
            None => {},
        }
        proof {
            let ghost o = old(self)@;
            if let Some(NativeCall::Release(_)) = next_call_of(o) {
                assert(self@.held =~= after_status(o, status).held);
            }
        }
    }

    /// The result once no call is left: the first fatal failure, or success.
    pub fn outcome(&self) -> (r: Option<Result<(), WinError>>)
        requires
            self.wf(),
        ensures
            match r {
                None => outcome_of(self@) is None,
                Some(Ok(())) => outcome_of(self@) == Some(Ok::<(), ErrorModel>(())),
                Some(Err(e)) => outcome_of(self@) == Some(Err::<(), ErrorModel>(e@)),
            },
    {
        if self.next_call().is_some() {
            None
        } else {
            match &self.failure {
                Some(e) => Some(Err(WinError { result: e.result, message: e.message.clone() })),
                None => Some(Ok(())),
            }
        }
    }
}

} // verus!
