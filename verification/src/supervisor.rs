//! The task supervisor's books: which tasks there are and where each
//! stands, what is to be told to the worker that runs the jobs, and the one
//! stream on which the results of all jobs come together.

use vstd::prelude::*;
use vstd::string::StringExecFns;
use crate::taskmanager::{
    is_settled, may_follow, GetAllorderRequest, GetBuyerInfoTask, GetTicketInfoTask, GrabTicketTask,
    LoginSmsRequestTask, PushTask, QrCodeLoginTask, SubmitLoginSmsRequestTask, Task, TaskRequest,
    TaskResult, TaskStatus,
};
use crate::login::qrcode_status_is_final;

verus! {

/// What the supervisor tells the worker that runs the jobs.
pub enum TaskMessage {
    /// Start a job for the request under the given identifier.
    SubmitTask(String, TaskRequest),
    /// Abort the job with the given identifier at its next suspension point.
    CancelTask(String),
    /// Take no more messages.
    Shutdown,
}

/// The supervisor's books.
pub struct TaskManagerImpl {
    /// The tasks, oldest first; no two share an identifier.
    pub running_tasks: Vec<Task>,
    /// Results that jobs handed in and no caller has drained yet, in the
    /// order in which they came.
    pub results: Vec<TaskResult>,
    /// Messages for the worker that have not been picked up yet.
    pub outbox: Vec<TaskMessage>,
    /// Whether the supervisor was shut down.
    pub closed: bool,
}

pub open spec fn task_id_spec(task: Task) -> Seq<char> {
    match task {
        Task::QrCodeLoginTask(t) => t.task_id@,
        Task::LoginSmsRequestTask(t) => t.task_id@,
        Task::PushTask(t) => t.task_id@,
        Task::SubmitLoginSmsRequestTask(t) => t.task_id@,
        Task::GetAllorderRequestTask(t) => t.task_id@,
        Task::GetTicketInfoTask(t) => t.task_id@,
        Task::GetBuyerInfoTask(t) => t.task_id@,
        Task::GrabTicketTask(t) => t.task_id@,
    }
}

pub open spec fn task_status_spec(task: Task) -> TaskStatus {
    match task {
        Task::QrCodeLoginTask(t) => t.status,
        Task::LoginSmsRequestTask(t) => t.status,
        Task::PushTask(t) => t.status,
        Task::SubmitLoginSmsRequestTask(t) => t.status,
        Task::GetAllorderRequestTask(t) => t.status,
        Task::GetTicketInfoTask(t) => t.status,
        Task::GetBuyerInfoTask(t) => t.status,
        Task::GrabTicketTask(t) => t.status,
    }
}

/// The same task with another status.
pub open spec fn with_status(task: Task, status: TaskStatus) -> Task {
    match task {
        Task::QrCodeLoginTask(t) => Task::QrCodeLoginTask(QrCodeLoginTask { status, ..t }),
        Task::LoginSmsRequestTask(t) => Task::LoginSmsRequestTask(LoginSmsRequestTask { status, ..t }),
        Task::PushTask(t) => Task::PushTask(PushTask { status, ..t }),
        Task::SubmitLoginSmsRequestTask(t) => Task::SubmitLoginSmsRequestTask(
            SubmitLoginSmsRequestTask { status, ..t },
        ),
        Task::GetAllorderRequestTask(t) => Task::GetAllorderRequestTask(
            GetAllorderRequest { status, ..t },
        ),
        Task::GetTicketInfoTask(t) => Task::GetTicketInfoTask(GetTicketInfoTask { status, ..t }),
        Task::GetBuyerInfoTask(t) => Task::GetBuyerInfoTask(GetBuyerInfoTask { status, ..t }),
        Task::GrabTicketTask(t) => Task::GrabTicketTask(GrabTicketTask { status, ..t }),
    }
}

/// Whether `i` is the place of the first task with the given identifier.
pub open spec fn is_place_of(tasks: Seq<Task>, id: Seq<char>, i: int) -> bool {
    &&& 0 <= i < tasks.len()
    &&& task_id_spec(tasks[i]) == id
    &&& forall|j: int| 0 <= j < i ==> task_id_spec(#[trigger] tasks[j]) != id
}

/// Whether there is a task with the given identifier.
pub open spec fn knows(tasks: Seq<Task>, id: Seq<char>) -> bool {
    exists|i: int| 0 <= i < tasks.len() && task_id_spec(#[trigger] tasks[i]) == id
}

/// The place of the task with the given identifier.
pub open spec fn place_of(tasks: Seq<Task>, id: Seq<char>) -> int {
    choose|i: int| is_place_of(tasks, id, i)
}

/// Where the task with the given identifier stands, if there is one.
pub open spec fn status_spec(tasks: Seq<Task>, id: Seq<char>) -> Option<TaskStatus> {
    if knows(tasks, id) {
        Some(task_status_spec(tasks[place_of(tasks, id)]))
    } else {
        None
    }
}

/// The books with the status of one task changed, if there is such a task.
pub open spec fn set_status_spec(tasks: Seq<Task>, id: Seq<char>, status: TaskStatus) -> Seq<Task> {
    if knows(tasks, id) {
        tasks.update(place_of(tasks, id), with_status(tasks[place_of(tasks, id)], status))
    } else {
        tasks
    }
}

/// The books after a task was cancelled: the task is marked cancelled unless
/// it was settled already.
pub open spec fn cancel_spec(tasks: Seq<Task>, id: Seq<char>) -> Seq<Task> {
    if status_spec(tasks, id) matches Some(status) && !is_settled(status) {
        set_status_spec(tasks, id, TaskStatus::Cancelled)
    } else {
        tasks
    }
}

/// The books after the job of a task started: a pending task is running.
pub open spec fn start_spec(tasks: Seq<Task>, id: Seq<char>) -> Seq<Task> {
    if status_spec(tasks, id) == Some(TaskStatus::Pending) {
        set_status_spec(tasks, id, TaskStatus::Running)
    } else {
        tasks
    }
}

/// The task identifier that a result carries.
pub open spec fn result_task_id(result: TaskResult) -> Seq<char> {
    match result {
        TaskResult::QrCodeLoginResult(r) => r.task_id@,
        TaskResult::LoginSmsResult(r) => r.task_id@,
        TaskResult::PushResult(r) => r.task_id@,
        TaskResult::SubmitSmsLoginResult(r) => r.task_id@,
        TaskResult::GetAllorderRequestResult(r) => r.task_id@,
        TaskResult::GetTicketInfoResult(r) => r.task_id@,
        TaskResult::GetBuyerInfoResult(r) => r.task_id@,
        TaskResult::GrabTicketResult(r) => r.task_id@,
    }
}

/// The status that a result settles its task in, if it is the last word of
/// its job. A failed acquisition settles as failed with the result's
/// message; a login by QR code that is still under way settles nothing.
pub open spec fn settles_as(result: TaskResult) -> Option<TaskStatus> {
    match result {
        TaskResult::QrCodeLoginResult(r) => if qrcode_status_is_final(r.status) {
            Some(TaskStatus::Completed(r.status is Success))
        } else {
            None
        },
        TaskResult::LoginSmsResult(r) => Some(TaskStatus::Completed(r.success)),
        TaskResult::PushResult(r) => Some(TaskStatus::Completed(r.success)),
        TaskResult::SubmitSmsLoginResult(r) => Some(TaskStatus::Completed(r.success)),
        TaskResult::GetAllorderRequestResult(r) => Some(TaskStatus::Completed(r.success)),
        TaskResult::GetTicketInfoResult(r) => Some(TaskStatus::Completed(r.success)),
        TaskResult::GetBuyerInfoResult(r) => Some(TaskStatus::Completed(r.success)),
        TaskResult::GrabTicketResult(r) => if r.success {
            Some(TaskStatus::Completed(true))
        } else {
            Some(TaskStatus::Failed(r.message))
        },
    }
}

/// Whether a result is let through to the stream: one for a cancelled task
/// is not.
pub open spec fn is_admitted(tasks: Seq<Task>, result: TaskResult) -> bool {
    !(status_spec(tasks, result_task_id(result)) matches Some(status) && status is Cancelled)
}

/// The tasks after a result came in: the result settles its task if it is
/// admitted, is the last word of its job, and the task was not settled yet.
pub open spec fn tasks_after_result(tasks: Seq<Task>, result: TaskResult) -> Seq<Task> {
    let id = result_task_id(result);
    if is_admitted(tasks, result) && settles_as(result) is Some && (status_spec(tasks, id) matches Some(
        status,
    ) && !is_settled(status)) {
        set_status_spec(tasks, id, settles_as(result)->Some_0)
    } else {
        tasks
    }
}

/// The stream after a result came in.
pub open spec fn stream_after_result(tasks: Seq<Task>, stream: Seq<TaskResult>, result: TaskResult) -> Seq<
    TaskResult,
> {
    if is_admitted(tasks, result) {
        stream.push(result)
    } else {
        stream
    }
}

/// What is entered in the books for a request: its task, pending.
pub open spec fn is_entry_for(task: Task, request: TaskRequest, id: Seq<char>) -> bool {
    &&& task_id_spec(task) == id
    &&& match request {
        TaskRequest::QrCodeLoginRequest(r) => task matches Task::QrCodeLoginTask(t) && t.qrcode_key@
            == r.qrcode_key@ && t.qrcode_url@ == r.qrcode_url@ && t.status is Pending,
        TaskRequest::LoginSmsRequest(r) => task matches Task::LoginSmsRequestTask(t) && t.phone@
            == r.phone@ && t.status is Pending,
        TaskRequest::PushRequest(r) => task matches Task::PushTask(t) && t.title@ == r.title@
            && t.message@ == r.message@ && t.push_type == r.push_type && t.status is Pending,
        TaskRequest::SubmitLoginSmsRequest(r) => task matches Task::SubmitLoginSmsRequestTask(t)
            && t.phone@ == r.phone@ && t.code@ == r.code@ && t.captcha_key@ == r.captcha_key@
            && t.status is Pending,
        TaskRequest::GetAllorderRequest(r) => task matches Task::GetAllorderRequestTask(t)
            && t.cookies@ == r.cookies@ && t.account_id@ == r.account_id@ && t.status is Pending,
        TaskRequest::GetTicketInfoRequest(r) => task matches Task::GetTicketInfoTask(t)
            && t.project_id@ == r.project_id@ && t.status is Pending,
        TaskRequest::GetBuyerInfoRequest(r) => task matches Task::GetBuyerInfoTask(t) && t.uid == r.uid
            && t.status is Pending,
        TaskRequest::GrabTicketRequest(r) => task matches Task::GrabTicketTask(t) && t.uid == r.uid
            && t.project_id@ == r.project_id@ && t.grab_mode == r.grab_mode && t.status is Pending,
    }
}

/// The identifier that a request brings along, if it brings one.
pub open spec fn own_id_spec(request: TaskRequest) -> Option<Seq<char>> {
    match request {
        TaskRequest::GetBuyerInfoRequest(r) => if r.task_id@.len() > 0 {
            Some(r.task_id@)
        } else {
            None
        },
        TaskRequest::GetTicketInfoRequest(r) => if r.task_id@.len() > 0 {
            Some(r.task_id@)
        } else {
            None
        },
        TaskRequest::GrabTicketRequest(r) => if r.task_id@.len() > 0 {
            Some(r.task_id@)
        } else {
            None
        },
        _ => None,
    }
}

/// Whether an identifier can be given to a new task: it is not empty, and
/// no task in the books has it.
pub open spec fn is_fresh(tasks: Seq<Task>, id: Seq<char>) -> bool {
    id.len() > 0 && !knows(tasks, id)
}

/// The identifier that a submission assigns: the one the request brings
/// along if it is fresh, else the drawn one if that is fresh; none if
/// neither is.
pub open spec fn chosen_id(tasks: Seq<Task>, request: TaskRequest, drawn: Seq<char>) -> Option<Seq<char>> {
    if own_id_spec(request) matches Some(own) && is_fresh(tasks, own) {
        own_id_spec(request)
    } else if is_fresh(tasks, drawn) {
        Some(drawn)
    } else {
        None
    }
}

/// What `submit` reports when no fresh identifier is at hand.
pub open spec fn submit_taken_message() -> Seq<char> {
    "无法提交任务: 任务ID已存在"@
}

/// What `submit` reports when the supervisor was shut down.
pub open spec fn submit_closed_message() -> Seq<char> {
    "无法提交任务: channel closed"@
}

/// What `cancel` reports when the supervisor was shut down.
pub open spec fn cancel_closed_message() -> Seq<char> {
    "无法取消任务: channel closed"@
}

/// What `cancel` reports for an unknown task.
pub open spec fn not_found_message() -> Seq<char> {
    "任务不存在"@
}

/// Draws a task identifier with `uuid::Uuid::new_v4` and writes it out with
/// the identifier's `to_string`, which gives the hyphenated form of 36
/// characters. The value is random; nothing else is claimed of it.
#[verifier::external_body]
fn fresh_task_id() -> (id: String)
    ensures
        id@.len() == 36,
{
    uuid::Uuid::new_v4().to_string()
}

fn task_id_of(task: &Task) -> (id: &String)
    ensures
        id@ == task_id_spec(*task),
{
    match task {
        Task::QrCodeLoginTask(t) => &t.task_id,
        Task::LoginSmsRequestTask(t) => &t.task_id,
        Task::PushTask(t) => &t.task_id,
        Task::SubmitLoginSmsRequestTask(t) => &t.task_id,
        Task::GetAllorderRequestTask(t) => &t.task_id,
        Task::GetTicketInfoTask(t) => &t.task_id,
        Task::GetBuyerInfoTask(t) => &t.task_id,
        Task::GrabTicketTask(t) => &t.task_id,
    }
}

fn task_status_of(task: &Task) -> (status: &TaskStatus)
    ensures
        *status == task_status_spec(*task),
{
    match task {
        Task::QrCodeLoginTask(t) => &t.status,
        Task::LoginSmsRequestTask(t) => &t.status,
        Task::PushTask(t) => &t.status,
        Task::SubmitLoginSmsRequestTask(t) => &t.status,
        Task::GetAllorderRequestTask(t) => &t.status,
        Task::GetTicketInfoTask(t) => &t.status,
        Task::GetBuyerInfoTask(t) => &t.status,
        Task::GrabTicketTask(t) => &t.status,
    }
}

fn restated(task: Task, status: TaskStatus) -> (changed: Task)
    ensures
        changed == with_status(task, status),
{
    match task {
        Task::QrCodeLoginTask(t) => Task::QrCodeLoginTask(QrCodeLoginTask { status, ..t }),
        Task::LoginSmsRequestTask(t) => Task::LoginSmsRequestTask(LoginSmsRequestTask { status, ..t }),
        Task::PushTask(t) => Task::PushTask(PushTask { status, ..t }),
        Task::SubmitLoginSmsRequestTask(t) => Task::SubmitLoginSmsRequestTask(
            SubmitLoginSmsRequestTask { status, ..t },
        ),
        Task::GetAllorderRequestTask(t) => Task::GetAllorderRequestTask(
            GetAllorderRequest { status, ..t },
        ),
        Task::GetTicketInfoTask(t) => Task::GetTicketInfoTask(GetTicketInfoTask { status, ..t }),
        Task::GetBuyerInfoTask(t) => Task::GetBuyerInfoTask(GetBuyerInfoTask { status, ..t }),
        Task::GrabTicketTask(t) => Task::GrabTicketTask(GrabTicketTask { status, ..t }),
    }
}

/// Finds the place of the first task with the given identifier.
fn find_place(tasks: &Vec<Task>, id: &str) -> (found: Option<usize>)
    ensures
        found is Some <==> knows(tasks@, id@),
        found matches Some(i) ==> is_place_of(tasks@, id@, i as int) && place_of(tasks@, id@) == i,
{
    let mut i: usize = 0;
    while i < tasks.len()
        invariant
            i <= tasks.len(),
            forall|j: int| 0 <= j < i ==> task_id_spec(#[trigger] tasks@[j]) != id@,
        decreases tasks.len() - i,
    {
        if *task_id_of(&tasks[i]).as_str() == *id {
            assert(is_place_of(tasks@, id@, i as int));
            proof {
                let chosen = place_of(tasks@, id@);
                assert(is_place_of(tasks@, id@, chosen));
                assert(task_id_spec(tasks@[chosen]) == id@);
                assert(task_id_spec(tasks@[i as int]) == id@);
            }
            return Some(i);
        }
        i += 1;
    }
    None
}

/// Reads the monotonic clock with `Instant::now`. Nothing is claimed of the
/// value.
#[verifier::external_body]
fn instant_now() -> (now: std::time::Instant) {
    std::time::Instant::now()
}

fn own_id(request: &TaskRequest) -> (id: Option<String>)
    ensures
        id is Some <==> own_id_spec(*request) is Some,
        id matches Some(text) ==> Some(text@) == own_id_spec(*request),
{
    let given = match request {
        TaskRequest::GetBuyerInfoRequest(r) => &r.task_id,
        TaskRequest::GetTicketInfoRequest(r) => &r.task_id,
        TaskRequest::GrabTicketRequest(r) => &r.task_id,
        _ => {
            return None;
        },
    };
    if given.as_str().unicode_len() > 0 {
        Some(given.clone())
    } else {
        None
    }
}

fn entry_for(request: &TaskRequest, id: &String) -> (task: Task)
    ensures
        is_entry_for(task, *request, id@),
{
    let start_time = Some(instant_now());
    match request {
        TaskRequest::QrCodeLoginRequest(r) => Task::QrCodeLoginTask(
            QrCodeLoginTask {
                task_id: id.clone(),
                qrcode_key: r.qrcode_key.clone(),
                qrcode_url: r.qrcode_url.clone(),
                status: TaskStatus::Pending,
                start_time,
            },
        ),
        TaskRequest::LoginSmsRequest(r) => Task::LoginSmsRequestTask(
            LoginSmsRequestTask {
                task_id: id.clone(),
                phone: r.phone.clone(),
                status: TaskStatus::Pending,
                start_time,
            },
        ),
        TaskRequest::PushRequest(r) => Task::PushTask(
            PushTask {
                task_id: id.clone(),
                title: r.title.clone(),
                message: r.message.clone(),
                push_type: r.push_type,
                status: TaskStatus::Pending,
                start_time,
            },
        ),
        TaskRequest::SubmitLoginSmsRequest(r) => Task::SubmitLoginSmsRequestTask(
            SubmitLoginSmsRequestTask {
                task_id: id.clone(),
                phone: r.phone.clone(),
                code: r.code.clone(),
                captcha_key: r.captcha_key.clone(),
                status: TaskStatus::Pending,
                start_time,
            },
        ),
        TaskRequest::GetAllorderRequest(r) => Task::GetAllorderRequestTask(
            GetAllorderRequest {
                task_id: id.clone(),
                status: TaskStatus::Pending,
                cookies: r.cookies.clone(),
                account_id: r.account_id.clone(),
                start_time,
            },
        ),
        TaskRequest::GetTicketInfoRequest(r) => Task::GetTicketInfoTask(
            GetTicketInfoTask {
                task_id: id.clone(),
                project_id: r.project_id.clone(),
                status: TaskStatus::Pending,
                start_time,
            },
        ),
        TaskRequest::GetBuyerInfoRequest(r) => Task::GetBuyerInfoTask(
            GetBuyerInfoTask {
                uid: r.uid,
                task_id: id.clone(),
                status: TaskStatus::Pending,
                start_time,
            },
        ),
        TaskRequest::GrabTicketRequest(r) => Task::GrabTicketTask(
            GrabTicketTask {
                task_id: id.clone(),
                uid: r.uid,
                project_id: r.project_id.clone(),
                grab_mode: r.grab_mode,
                status: TaskStatus::Pending,
                start_time,
            },
        ),
    }
}

fn result_id_of(result: &TaskResult) -> (id: &String)
    ensures
        id@ == result_task_id(*result),
{
    match result {
        TaskResult::QrCodeLoginResult(r) => &r.task_id,
        TaskResult::LoginSmsResult(r) => &r.task_id,
        TaskResult::PushResult(r) => &r.task_id,
        TaskResult::SubmitSmsLoginResult(r) => &r.task_id,
        TaskResult::GetAllorderRequestResult(r) => &r.task_id,
        TaskResult::GetTicketInfoResult(r) => &r.task_id,
        TaskResult::GetBuyerInfoResult(r) => &r.task_id,
        TaskResult::GrabTicketResult(r) => &r.task_id,
    }
}

fn settling_status(result: &TaskResult) -> (status: Option<TaskStatus>)
    ensures
        status == settles_as(*result),
{
    match result {
        TaskResult::QrCodeLoginResult(r) => {
            if r.status.is_final() {
                Some(TaskStatus::Completed(matches!(r.status, crate::login::QrCodeLoginStatus::Success(_))))
            } else {
                None
            }
        },
        TaskResult::LoginSmsResult(r) => Some(TaskStatus::Completed(r.success)),
        TaskResult::PushResult(r) => Some(TaskStatus::Completed(r.success)),
        TaskResult::SubmitSmsLoginResult(r) => Some(TaskStatus::Completed(r.success)),
        TaskResult::GetAllorderRequestResult(r) => Some(TaskStatus::Completed(r.success)),
        TaskResult::GetTicketInfoResult(r) => Some(TaskStatus::Completed(r.success)),
        TaskResult::GetBuyerInfoResult(r) => Some(TaskStatus::Completed(r.success)),
        TaskResult::GrabTicketResult(r) => {
            if r.success {
                Some(TaskStatus::Completed(true))
            } else {
                Some(TaskStatus::Failed(r.message.clone()))
            }
        },
    }
}

/// Whether a task is the entry of a submission: the request's task under
/// the given identifier, pending.
pub open spec fn is_new_entry(entry: Task, request: TaskRequest, id: Seq<char>) -> bool {
    is_entry_for(entry, request, id) && task_status_spec(entry) is Pending
}

/// What a submission does. A supervisor that was shut down refuses it, and
/// so does one that has no fresh identifier at hand; a refusal changes
/// nothing. Otherwise the request's task is entered at the end of the books
/// under the assigned identifier, pending, the worker is told to start its
/// job, and the identifier is handed back.
pub open spec fn is_submitted(
    before: TaskManagerImpl,
    request: TaskRequest,
    drawn: Seq<char>,
    after: TaskManagerImpl,
    res: Result<String, String>,
) -> bool {
    &&& after.results@ == before.results@
    &&& after.closed == before.closed
    &&& if before.closed {
        &&& res matches Err(reason)
        &&& reason@ == submit_closed_message()
        &&& after.running_tasks@ == before.running_tasks@
        &&& after.outbox@ == before.outbox@
    } else {
        match chosen_id(before.running_tasks@, request, drawn) {
            None => {
                &&& res matches Err(reason)
                &&& reason@ == submit_taken_message()
                &&& after.running_tasks@ == before.running_tasks@
                &&& after.outbox@ == before.outbox@
            },
            Some(id) => {
                &&& res matches Ok(given)
                &&& given@ == id
                &&& is_fresh(before.running_tasks@, id)
                &&& after.running_tasks@.len() == before.running_tasks@.len() + 1
                &&& after.running_tasks@.drop_last() == before.running_tasks@
                &&& is_new_entry(after.running_tasks@.last(), request, id)
                &&& after.outbox@.len() == before.outbox@.len() + 1
                &&& after.outbox@.drop_last() == before.outbox@
                &&& after.outbox@.last() matches TaskMessage::SubmitTask(told, passed)
                &&& told@ == id
                &&& passed == request
            },
        }
    }
}

impl TaskManagerImpl {
    /// A supervisor with empty books.
    pub fn new() -> (manager: Self)
        ensures
            manager.running_tasks@.len() == 0,
            manager.results@.len() == 0,
            manager.outbox@.len() == 0,
            !manager.closed,
    {
        TaskManagerImpl {
            running_tasks: Vec::new(),
            results: Vec::new(),
            outbox: Vec::new(),
            closed: false,
        }
    }

    fn restate(&mut self, place: usize, status: TaskStatus)
        requires
            place < old(self).running_tasks@.len(),
        ensures
            final(self).running_tasks@ == old(self).running_tasks@.update(
                place as int,
                with_status(old(self).running_tasks@[place as int], status),
            ),
            final(self).results == old(self).results,
            final(self).outbox == old(self).outbox,
            final(self).closed == old(self).closed,
    {
        let ghost before = self.running_tasks@;
        let last: usize = self.running_tasks.len() - 1;
        let task = self.running_tasks.swap_remove(place);
        self.running_tasks.push(restated(task, status));
        let end: usize = self.running_tasks.len() - 1;
        if place != end {
            let moved = self.running_tasks.swap_remove(place);
            self.running_tasks.push(moved);
        }
        assert(self.running_tasks@ =~= before.update(
            place as int,
            with_status(before[place as int], status),
        ));
    }

    fn is_fresh_id(&self, id: &str) -> (fresh: bool)
        ensures
            fresh == is_fresh(self.running_tasks@, id@),
    {
        id.unicode_len() > 0 && find_place(&self.running_tasks, id).is_none()
    }

    /// Submits a request with a drawn identifier to fall back on: the
    /// request gets a fresh identifier, its own if it brings one that is
    /// fresh, else the drawn one, and its task is entered as pending.
    pub fn submit_task_as(&mut self, request: TaskRequest, drawn: String) -> (res: Result<String, String>)
        ensures
            is_submitted(*old(self), request, drawn@, *final(self), res),
            res matches Ok(id) ==> is_fresh(old(self).running_tasks@, id@) && status_spec(
                final(self).running_tasks@,
                id@,
            ) == Some(TaskStatus::Pending),
            forall|other: Seq<char>|
                knows(old(self).running_tasks@, other) ==> #[trigger] status_spec(
                    final(self).running_tasks@,
                    other,
                ) == status_spec(old(self).running_tasks@, other),
    {
        if self.closed {
            return Err(String::from_str("无法提交任务: channel closed"));
        }
        let id = match own_id(&request) {
            Some(own) => {
                if self.is_fresh_id(own.as_str()) {
                    own
                } else if self.is_fresh_id(drawn.as_str()) {
                    drawn
                } else {
                    return Err(String::from_str("无法提交任务: 任务ID已存在"));
                }
            },
            None => {
                if self.is_fresh_id(drawn.as_str()) {
                    drawn
                } else {
                    return Err(String::from_str("无法提交任务: 任务ID已存在"));
                }
            },
        };
        let entry = entry_for(&request, &id);
        let ghost books = self.running_tasks@;
        let ghost letters = self.outbox@;
        self.running_tasks.push(entry);
        self.outbox.push(TaskMessage::SubmitTask(id.clone(), request));
        proof {
            assert(self.running_tasks@.drop_last() =~= books);
            assert(self.outbox@.drop_last() =~= letters);
            assert(self.running_tasks@ =~= books.push(self.running_tasks@.last()));
            crate::supervisor_laws::entry_is_found(books, self.running_tasks@.last());
        }
        Ok(id)
    }

    /// Submits a request: it gets a fresh identifier, its own if it brings
    /// one that is fresh, else one drawn at random, and its task is entered
    /// as pending. The drawn identifier has 36 characters, so that only a
    /// supervisor that was shut down, or one whose books hold the drawn
    /// identifier already, refuses.
    pub fn submit_task(&mut self, request: TaskRequest) -> (res: Result<String, String>)
        ensures
            exists|drawn: Seq<char>|
                drawn.len() == 36 && #[trigger] is_submitted(*old(self), request, drawn, *final(self), res),
            res matches Ok(id) ==> is_fresh(old(self).running_tasks@, id@) && status_spec(
                final(self).running_tasks@,
                id@,
            ) == Some(TaskStatus::Pending),
            forall|other: Seq<char>|
                knows(old(self).running_tasks@, other) ==> #[trigger] status_spec(
                    final(self).running_tasks@,
                    other,
                ) == status_spec(old(self).running_tasks@, other),
            !old(self).closed && own_id_spec(request) is Some && is_fresh(
                old(self).running_tasks@,
                own_id_spec(request)->Some_0,
            ) ==> res is Ok && Some(res->Ok_0@) == own_id_spec(request),
    {
        let drawn = fresh_task_id();
        self.submit_task_as(request, drawn)
    }

    /// Cancels a task: the worker is told to abort its job, and the task is
    /// marked cancelled unless it was settled already. Fails for an unknown
    /// task, and after shutdown.
    pub fn cancel_task(&mut self, task_id: &str) -> (res: Result<(), String>)
        ensures
            final(self).results@ == old(self).results@,
            final(self).closed == old(self).closed,
            !knows(old(self).running_tasks@, task_id@) ==> {
                &&& res matches Err(reason)
                &&& reason@ == not_found_message()
                &&& final(self).running_tasks@ == old(self).running_tasks@
                &&& final(self).outbox@ == old(self).outbox@
            },
            knows(old(self).running_tasks@, task_id@) && old(self).closed ==> {
                &&& res matches Err(reason)
                &&& reason@ == cancel_closed_message()
                &&& final(self).running_tasks@ == old(self).running_tasks@
                &&& final(self).outbox@ == old(self).outbox@
            },
            knows(old(self).running_tasks@, task_id@) && !old(self).closed ==> {
                &&& res is Ok
                &&& final(self).running_tasks@ == cancel_spec(old(self).running_tasks@, task_id@)
                &&& final(self).outbox@.len() == old(self).outbox@.len() + 1
                &&& final(self).outbox@.drop_last() == old(self).outbox@
                &&& final(self).outbox@.last() matches TaskMessage::CancelTask(told)
                &&& told@ == task_id@
            },
    {
        match find_place(&self.running_tasks, task_id) {
            None => Err(String::from_str("任务不存在")),
            Some(place) => {
                if self.closed {
                    return Err(String::from_str("无法取消任务: channel closed"));
                }
                let ghost before = self.outbox@;
                self.outbox.push(TaskMessage::CancelTask(String::from_str(task_id)));
                assert(self.outbox@.drop_last() =~= before);
                if !task_status_of(&self.running_tasks[place]).settled() {
                    self.restate(place, TaskStatus::Cancelled);
                }
                Ok(())
            },
        }
    }

    /// Where a task stands, if there is such a task.
    pub fn get_task_status(&self, task_id: &str) -> (status: Option<TaskStatus>)
        ensures
            status == status_spec(self.running_tasks@, task_id@),
    {
        match find_place(&self.running_tasks, task_id) {
            None => None,
            Some(place) => Some(task_status_of(&self.running_tasks[place]).clone()),
        }
    }

    /// Notes that the job of a task has started: a pending task is running
    /// from now on. Any other task stays as it is.
    pub fn mark_running(&mut self, task_id: &str)
        ensures
            final(self).running_tasks@ == start_spec(old(self).running_tasks@, task_id@),
            final(self).results == old(self).results,
            final(self).outbox == old(self).outbox,
            final(self).closed == old(self).closed,
    {
        match find_place(&self.running_tasks, task_id) {
            None => {},
            Some(place) => {
                if matches!(task_status_of(&self.running_tasks[place]), TaskStatus::Pending) {
                    self.restate(place, TaskStatus::Running);
                }
            },
        }
    }

    /// Takes in a result that a job hands over. A result for a cancelled
    /// task is dropped; any other joins the stream, and settles its task if
    /// it is the last word of its job. Answers whether the result was let
    /// through.
    pub fn accept_result(&mut self, result: TaskResult) -> (admitted: bool)
        ensures
            admitted == is_admitted(old(self).running_tasks@, result),
            final(self).running_tasks@ == tasks_after_result(old(self).running_tasks@, result),
            final(self).results@ == stream_after_result(
                old(self).running_tasks@,
                old(self).results@,
                result,
            ),
            final(self).outbox == old(self).outbox,
            final(self).closed == old(self).closed,
    {
        match find_place(&self.running_tasks, result_id_of(&result).as_str()) {
            None => {
                self.results.push(result);
                true
            },
            Some(place) => {
                let status = task_status_of(&self.running_tasks[place]);
                if matches!(status, TaskStatus::Cancelled) {
                    return false;
                }
                if !status.settled() {
                    match settling_status(&result) {
                        Some(settled) => {
                            self.restate(place, settled);
                        },
                        None => {},
                    }
                }
                self.results.push(result);
                true
            },
        }
    }

    /// Hands out the results that have come in since the last call, oldest
    /// first, without waiting for more.
    pub fn get_results(&mut self) -> (drained: Vec<TaskResult>)
        ensures
            drained@ == old(self).results@,
            final(self).results@.len() == 0,
            final(self).running_tasks == old(self).running_tasks,
            final(self).outbox == old(self).outbox,
            final(self).closed == old(self).closed,
    {
        let mut drained: Vec<TaskResult> = Vec::new();
        std::mem::swap(&mut self.results, &mut drained);
        drained
    }

    /// Hands out the messages for the worker that have piled up, oldest
    /// first.
    pub fn take_messages(&mut self) -> (messages: Vec<TaskMessage>)
        ensures
            messages@ == old(self).outbox@,
            final(self).outbox@.len() == 0,
            final(self).running_tasks == old(self).running_tasks,
            final(self).results == old(self).results,
            final(self).closed == old(self).closed,
    {
        let mut messages: Vec<TaskMessage> = Vec::new();
        std::mem::swap(&mut self.outbox, &mut messages);
        messages
    }

    /// Shuts the supervisor down: the worker is told to stop, and from now on
    /// nothing is submitted or cancelled.
    pub fn shutdown(&mut self)
        ensures
            final(self).closed,
            final(self).outbox@ == old(self).outbox@.push(TaskMessage::Shutdown),
            final(self).running_tasks == old(self).running_tasks,
            final(self).results == old(self).results,
    {
        self.outbox.push(TaskMessage::Shutdown);
        self.closed = true;
    }
}

} // verus!
