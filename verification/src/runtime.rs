//! The vocabulary of a device-control program built on the broker: the
//! operations it requests, the codes it is answered with, and the topics
//! it listens to.

use vstd::prelude::*;
use vstd::string::*;

verus! {

/// The operations a device-control program can request.
#[derive(Clone, Copy, Debug, PartialEq, Eq, Structural)]
pub enum FunId {
    AvailablePort,
    OpenPort,
    ClosePort,
    ChangeId,
    Init,
    ScanDevices,
    CurrentPos,
    CurrentSpeed,
    CurrentAccSpeed,
    SetId,
    SetAngle,
    SetIncPos,
    SetSpeed,
    SetAccSpeed,
    SetAutoEnable,
    SetInitAutoBack,
    SetFactor,
    SaveParam,
}

/// The name of each operation, as shown to the user.
pub open spec fn operation_name(id: FunId) -> Seq<char> {
    match id {
        FunId::AvailablePort => "查询有效端口"@,
        FunId::OpenPort => "打开端口"@,
        FunId::ClosePort => "关闭端口"@,
        FunId::ChangeId => "修改设备ID"@,
        FunId::Init => "使能设备"@,
        FunId::ScanDevices => "扫描设备"@,
        FunId::CurrentPos => "获取当前位置"@,
        FunId::CurrentSpeed => "获取当前速度"@,
        FunId::CurrentAccSpeed => "获取当前加速度"@,
        FunId::SetId => "设置ID"@,
        FunId::SetAngle => "设置绝对位置"@,
        FunId::SetIncPos => "设置增量位置"@,
        FunId::SetSpeed => "设置速度"@,
        FunId::SetAccSpeed => "设置加速度"@,
        FunId::SetAutoEnable => "设置上电后自动启用"@,
        FunId::SetInitAutoBack => "设置上电后回到初始位置"@,
        FunId::SetFactor => "设置齿轮比例"@,
        FunId::SaveParam => "保存参数"@,
    }
}

impl FunId {
    /// The name of the operation.
    pub fn to_string(&self) -> (s: String)
        ensures
            s@ == operation_name(*self),
    {
        match *self {
            FunId::AvailablePort => String::from_str("查询有效端口"),
            FunId::OpenPort => String::from_str("打开端口"),
            FunId::ClosePort => String::from_str("关闭端口"),
            FunId::ChangeId => String::from_str("修改设备ID"),
            FunId::Init => String::from_str("使能设备"),
            FunId::ScanDevices => String::from_str("扫描设备"),
            FunId::CurrentPos => String::from_str("获取当前位置"),
            FunId::CurrentSpeed => String::from_str("获取当前速度"),
            FunId::CurrentAccSpeed => String::from_str("获取当前加速度"),
            FunId::SetId => String::from_str("设置ID"),
            FunId::SetAngle => String::from_str("设置绝对位置"),
            FunId::SetIncPos => String::from_str("设置增量位置"),
            FunId::SetSpeed => String::from_str("设置速度"),
            FunId::SetAccSpeed => String::from_str("设置加速度"),
            FunId::SetAutoEnable => String::from_str("设置上电后自动启用"),
            FunId::SetInitAutoBack => String::from_str("设置上电后回到初始位置"),
            FunId::SetFactor => String::from_str("设置齿轮比例"),
            FunId::SaveParam => String::from_str("保存参数"),
        }
    }
}

/// How far an operation has come.
#[derive(Clone, Copy, Debug, PartialEq, Eq, Structural)]
pub enum ResponseCode {
    /// The operation failed.
    Fail,
    /// The operation succeeded.
    Success,
    /// The operation has not run yet.
    Ready,
    /// The operation is running.
    Pending,
}

/// The text of each code, as shown to the user.
pub open spec fn code_text(code: ResponseCode) -> Seq<char> {
    match code {
        ResponseCode::Fail => "执行失败"@,
        ResponseCode::Success => "执行成功"@,
        ResponseCode::Ready => "准备就绪"@,
        ResponseCode::Pending => "等待执行完成"@,
    }
}

/// The number of each code.
pub open spec fn code_number(code: ResponseCode) -> int {
    match code {
        ResponseCode::Fail => -1,
        ResponseCode::Success => 0,
        ResponseCode::Ready => 1,
        ResponseCode::Pending => 2,
    }
}

impl ResponseCode {
    /// The text of the code.
    pub fn to_string(&self) -> (s: String)
        ensures
            s@ == code_text(*self),
    {
        match *self {
            ResponseCode::Fail => String::from_str("执行失败"),
            ResponseCode::Success => String::from_str("执行成功"),
            ResponseCode::Ready => String::from_str("准备就绪"),
            ResponseCode::Pending => String::from_str("等待执行完成"),
        }
    }

    /// The number of the code.
    pub fn number(&self) -> (n: i32)
        ensures
            n == code_number(*self),
    {
        match *self {
            ResponseCode::Fail => -1,
            ResponseCode::Success => 0,
            ResponseCode::Ready => 1,
            ResponseCode::Pending => 2,
        }
    }
}

impl Default for ResponseCode {
    fn default() -> (c: ResponseCode)
        ensures
            c == ResponseCode::Ready,
    {
        ResponseCode::Ready
    }
}

/// The answer to an operation: which operation, how far it has come, and
/// a message.
#[derive(Debug)]
pub struct Response {
    pub fun_id: FunId,
    pub code: ResponseCode,
    pub msg: String,
}

impl Response {
    /// The answer an operation starts with: ready, with the text of that
    /// code as message.
    pub fn new(fun_id: FunId) -> (r: Response)
        ensures
            r.fun_id == fun_id,
            r.code == ResponseCode::Ready,
            r.msg@ == code_text(ResponseCode::Ready),
    {
        let code = ResponseCode::default();
        Response { fun_id, code, msg: code.to_string() }
    }

    /// The answer of an operation that is running.
    pub fn pending(fun_id: FunId) -> (r: Response)
        ensures
            r.fun_id == fun_id,
            r.code == ResponseCode::Pending,
            r.msg@ == code_text(ResponseCode::Pending),
    {
        let code = ResponseCode::Pending;
        Response { fun_id, code, msg: code.to_string() }
    }

    /// The name of the operation that is answered.
    pub fn operation(&self) -> (s: String)
        ensures
            s@ == operation_name(self.fun_id),
    {
        self.fun_id.to_string()
    }

    /// The text of the code.
    pub fn status(&self) -> (s: String)
        ensures
            s@ == code_text(self.code),
    {
        self.code.to_string()
    }

    /// An answer with the same operation, code and message.
    pub fn duplicate(&self) -> (r: Response)
        ensures
            r.fun_id == self.fun_id,
            r.code == self.code,
            r.msg@ == self.msg@,
    {
        Response { fun_id: self.fun_id, code: self.code, msg: self.msg.clone() }
    }
}

impl Clone for Response {
    fn clone(&self) -> (r: Response)
        ensures
            r.fun_id == self.fun_id,
            r.code == self.code,
            r.msg@ == self.msg@,
    {
        self.duplicate()
    }
}

/// The address of a topic.
#[derive(Debug)]
pub struct TopicAddr(String);

impl TopicAddr {
    /// The address with the given name.
    pub fn new(name: String) -> (a: TopicAddr)
        ensures
            a.name_spec() == name@,
    {
        TopicAddr(name)
    }

    /// The name, as contracts speak of it.
    pub closed spec fn name_spec(&self) -> Seq<char> {
        self.0@
    }

    /// The name of the topic.
    pub fn name(&self) -> (s: String)
        ensures
            s@ == self.name_spec(),
    {
        self.0.clone()
    }
}

/// The topics a device publishes.
#[derive(Clone, Copy, Debug, PartialEq, Eq, Structural)]
pub enum TopicId {
    MotorData,
}

/// A payload published by a device.
pub struct Topic {
    pub id: TopicId,
    pub msg: String,
}

impl Topic {
    /// A payload with the same topic and message.
    pub fn duplicate(&self) -> (t: Topic)
        ensures
            t.id == self.id,
            t.msg@ == self.msg@,
    {
        Topic { id: self.id, msg: self.msg.clone() }
    }
}

impl Clone for Topic {
    fn clone(&self) -> (t: Topic)
        ensures
            t.id == self.id,
            t.msg@ == self.msg@,
    {
        self.duplicate()
    }
}

/// The list of texts that `serde_json::from_str` reads from a JSON text,
/// `None` where it rejects the text.
pub uninterp spec fn json_texts(text: Seq<char>) -> Option<Seq<Seq<char>>>;

/// The list of bytes that `serde_json::from_str` reads from a JSON text,
/// `None` where it rejects the text.
pub uninterp spec fn json_byte_list(text: Seq<char>) -> Option<Seq<u8>>;

/// The 32-bit integer that `serde_json::from_str` reads from a JSON text,
/// `None` where it rejects the text.
pub uninterp spec fn json_i32(text: Seq<char>) -> Option<i32>;

/// The 16-bit natural number that `serde_json::from_str` reads from a
/// JSON text, `None` where it rejects the text.
pub uninterp spec fn json_u16(text: Seq<char>) -> Option<u16>;

/// `serde_json::from_str` at type `Vec<String>`: the outcome is a function
/// of the text alone.
#[verifier::external_body]
fn parse_texts(text: &str) -> (r: Option<Vec<String>>)
    ensures
        r is Some ==> json_texts(text@) == Some(r->0@.map_values(|s: String| s@)),
        r is None ==> json_texts(text@) is None,
{
    serde_json::from_str::<Vec<String>>(text).ok()
}

/// `serde_json::from_str` at type `Vec<u8>`.
#[verifier::external_body]
fn parse_byte_list(text: &str) -> (r: Option<Vec<u8>>)
    ensures
        r is Some ==> json_byte_list(text@) == Some(r->0@),
        r is None ==> json_byte_list(text@) is None,
{
    serde_json::from_str::<Vec<u8>>(text).ok()
}

/// `serde_json::from_str` at type `i32`.
#[verifier::external_body]
fn parse_i32(text: &str) -> (r: Option<i32>)
    ensures
        r == json_i32(text@),
{
    serde_json::from_str::<i32>(text).ok()
}

/// `serde_json::from_str` at type `u16`.
#[verifier::external_body]
fn parse_u16(text: &str) -> (r: Option<u16>)
    ensures
        r == json_u16(text@),
{
    serde_json::from_str::<u16>(text).ok()
}

/// What a successful answer changes in what the program knows of the
/// device.
pub enum Update {
    /// The ports that can be opened.
    Ports(Vec<String>),
    /// Whether the port is open.
    PortOpened(bool),
    /// The devices found on the bus.
    Ids(Vec<u8>),
    /// The position of the motor.
    CurrentPos(i32),
    /// The speed of the motor.
    CurrentSpeed(u16),
    /// The acceleration of the motor.
    CurrentAccSpeed(u16),
    /// Nothing to take over.
    Nothing,
}

/// Mathematical model of an update.
pub enum UpdateView {
    Ports(Seq<Seq<char>>),
    PortOpened(bool),
    Ids(Seq<u8>),
    CurrentPos(i32),
    CurrentSpeed(u16),
    CurrentAccSpeed(u16),
    Nothing,
}

impl View for Update {
    type V = UpdateView;

    open spec fn view(&self) -> UpdateView {
        match self {
            Update::Ports(p) => UpdateView::Ports(p@.map_values(|s: String| s@)),
            Update::PortOpened(b) => UpdateView::PortOpened(*b),
            Update::Ids(i) => UpdateView::Ids(i@),
            Update::CurrentPos(n) => UpdateView::CurrentPos(*n),
            Update::CurrentSpeed(n) => UpdateView::CurrentSpeed(*n),
            Update::CurrentAccSpeed(n) => UpdateView::CurrentAccSpeed(*n),
            Update::Nothing => UpdateView::Nothing,
        }
    }
}

/// The update that a successful answer to an operation carries in its
/// message, `None` where the message is not the JSON that the operation
/// answers with.
pub open spec fn update_of(id: FunId, msg: Seq<char>) -> Option<UpdateView> {
    match id {
        FunId::AvailablePort => match json_texts(msg) {
            Some(ports) => Some(UpdateView::Ports(ports)),
            None => None,
        },
        FunId::OpenPort => Some(UpdateView::PortOpened(true)),
        FunId::ClosePort => Some(UpdateView::PortOpened(false)),
        FunId::ScanDevices => match json_byte_list(msg) {
            Some(ids) => Some(UpdateView::Ids(ids)),
            None => None,
        },
        FunId::CurrentPos => match json_i32(msg) {
            Some(n) => Some(UpdateView::CurrentPos(n)),
            None => None,
        },
        FunId::CurrentSpeed => match json_u16(msg) {
            Some(n) => Some(UpdateView::CurrentSpeed(n)),
            None => None,
        },
        FunId::CurrentAccSpeed => match json_u16(msg) {
            Some(n) => Some(UpdateView::CurrentAccSpeed(n)),
            None => None,
        },
        _ => Some(UpdateView::Nothing),
    }
}

/// Reads the update out of the message of a successful answer.
pub fn read_update(id: FunId, msg: &str) -> (r: Option<Update>)
    ensures
        r is Some == update_of(id, msg@) is Some,
        r is Some ==> r->0@ == update_of(id, msg@)->0,
{
    match id {
        FunId::AvailablePort => match parse_texts(msg) {
            Some(ports) => Some(Update::Ports(ports)),
            None => None,
        },
        FunId::OpenPort => Some(Update::PortOpened(true)),
        FunId::ClosePort => Some(Update::PortOpened(false)),
        FunId::ScanDevices => match parse_byte_list(msg) {
            Some(ids) => Some(Update::Ids(ids)),
            None => None,
        },
        FunId::CurrentPos => match parse_i32(msg) {
            Some(n) => Some(Update::CurrentPos(n)),
            None => None,
        },
        FunId::CurrentSpeed => match parse_u16(msg) {
            Some(n) => Some(Update::CurrentSpeed(n)),
            None => None,
        },
        FunId::CurrentAccSpeed => match parse_u16(msg) {
            Some(n) => Some(Update::CurrentAccSpeed(n)),
            None => None,
        },
        _ => Some(Update::Nothing),
    }
}

/// What the program does with an answer.
pub enum Reaction {
    /// Show the message as the error of the operation, and forget the
    /// request.
    Failed { operation: FunId, message: String },
    /// Take the update over, show the note for the operation, and forget
    /// the request.
    Succeeded { operation: FunId, update: Update, note: String },
    /// Show the message as a note for the operation, and keep waiting.
    Waiting { operation: FunId, message: String },
}

/// Mathematical model of a reaction.
pub enum ReactionView {
    Failed { operation: FunId, message: Seq<char> },
    Succeeded { operation: FunId, update: UpdateView, note: Seq<char> },
    Waiting { operation: FunId, message: Seq<char> },
}

impl View for Reaction {
    type V = ReactionView;

    open spec fn view(&self) -> ReactionView {
        match self {
            Reaction::Failed { operation, message } => ReactionView::Failed {
                operation: *operation,
                message: message@,
            },
            Reaction::Succeeded { operation, update, note } => ReactionView::Succeeded {
                operation: *operation,
                update: update@,
                note: note@,
            },
            Reaction::Waiting { operation, message } => ReactionView::Waiting {
                operation: *operation,
                message: message@,
            },
        }
    }
}

impl ReactionView {
    /// Whether the request is done with and its entry can be forgotten.
    pub open spec fn forgets(self) -> bool {
        !(self is Waiting)
    }
}

/// The reaction to an answer, `None` where a successful answer does not
/// carry the JSON that its operation answers with.
pub open spec fn reaction_of(fun_id: FunId, code: ResponseCode, msg: Seq<char>) -> Option<
    ReactionView,
> {
    match code {
        ResponseCode::Fail => Some(ReactionView::Failed { operation: fun_id, message: msg }),
        ResponseCode::Success => match update_of(fun_id, msg) {
            Some(update) => Some(
                ReactionView::Succeeded {
                    operation: fun_id,
                    update,
                    note: code_text(ResponseCode::Success),
                },
            ),
            None => None,
        },
        ResponseCode::Ready | ResponseCode::Pending => Some(
            ReactionView::Waiting { operation: fun_id, message: msg },
        ),
    }
}

/// Decides what to do with an answer: a failure is shown as an error, a
/// success is read for what it brings and shown with the text of its
/// code, and anything else is shown while the program keeps waiting.
pub fn react(res: &Response) -> (r: Option<Reaction>)
    ensures
        r is Some == reaction_of(res.fun_id, res.code, res.msg@) is Some,
        r is Some ==> r->0@ == reaction_of(res.fun_id, res.code, res.msg@)->0,
{
    match res.code {
        ResponseCode::Fail => Some(
            Reaction::Failed { operation: res.fun_id, message: res.msg.clone() },
        ),
        ResponseCode::Success => match read_update(res.fun_id, res.msg.as_str()) {
            Some(update) => Some(
                Reaction::Succeeded { operation: res.fun_id, update, note: res.status() },
            ),
            None => None,
        },
        ResponseCode::Ready | ResponseCode::Pending => Some(
            Reaction::Waiting { operation: res.fun_id, message: res.msg.clone() },
        ),
    }
}

/// Mathematical model of an answer.
pub struct AnswerView {
    pub fun_id: FunId,
    pub code: ResponseCode,
    pub msg: Seq<char>,
}

impl View for Response {
    type V = AnswerView;

    open spec fn view(&self) -> AnswerView {
        AnswerView { fun_id: self.fun_id, code: self.code, msg: self.msg@ }
    }
}

/// A request that was made, the operation it asks for, and the answer it
/// has so far.
pub struct Pending<R> {
    request: R,
    asked: FunId,
    answer: Response,
}

/// Mathematical model of a pending request.
pub struct PendingView<R> {
    pub request: R,
    pub asked: FunId,
    pub answer: AnswerView,
}

impl<R> View for Pending<R> {
    type V = PendingView<R>;

    closed spec fn view(&self) -> PendingView<R> {
        PendingView { request: self.request, asked: self.asked, answer: self.answer@ }
    }
}

/// The entry a request is queued with: the answer an operation starts
/// with.
pub open spec fn queued<R>(request: R, asked: FunId) -> PendingView<R> {
    PendingView {
        request,
        asked,
        answer: AnswerView {
            fun_id: asked,
            code: ResponseCode::Ready,
            msg: code_text(ResponseCode::Ready),
        },
    }
}

/// Whether `i` is the position of the first request that asks for the
/// operation.
pub open spec fn first_asking<R>(queue: Seq<PendingView<R>>, fun_id: FunId, i: int) -> bool {
    &&& 0 <= i < queue.len()
    &&& queue[i].asked == fun_id
    &&& forall|k: int| 0 <= k < i ==> (#[trigger] queue[k]).asked != fun_id
}

/// The queue after an answer arrives: it stands, in place, for the first
/// request that asks for the operation it answers; where no request asks
/// for that operation, nothing changes.
pub open spec fn answered<R>(queue: Seq<PendingView<R>>, res: AnswerView) -> Seq<PendingView<R>> {
    if exists|i: int| first_asking(queue, res.fun_id, i) {
        let i = choose|i: int| first_asking(queue, res.fun_id, i);
        queue.update(i, PendingView { answer: res, ..queue[i] })
    } else {
        queue
    }
}

/// The queue after a batch of answers arrives, first to last.
pub open spec fn answered_all<R>(queue: Seq<PendingView<R>>, batch: Seq<AnswerView>) -> Seq<
    PendingView<R>,
>
    decreases batch.len(),
{
    if batch.len() == 0 {
        queue
    } else {
        answered(answered_all(queue, batch.drop_last()), batch.last())
    }
}

/// The answer that the request made last has so far, where the queue
/// holds a request.
pub open spec fn last_answer_of<R>(queue: Seq<PendingView<R>>) -> Option<AnswerView> {
    if queue.len() > 0 {
        Some(queue.last().answer)
    } else {
        None
    }
}

/// The queue without the requests whose answer is to the given operation.
pub open spec fn settled<R>(queue: Seq<PendingView<R>>, fun_id: FunId) -> Seq<PendingView<R>> {
    queue.filter(|p: PendingView<R>| p.answer.fun_id != fun_id)
}

/// The requests that were made and not yet done with, oldest first, each
/// with the answer it has so far.
pub struct AnswerQueue<R> {
    entries: Vec<Pending<R>>,
}

impl<R> View for AnswerQueue<R> {
    type V = Seq<PendingView<R>>;

    closed spec fn view(&self) -> Seq<PendingView<R>> {
        self.entries@.map_values(|p: Pending<R>| p@)
    }
}

impl<R> AnswerQueue<R> {
    /// A queue without requests.
    pub fn new() -> (q: AnswerQueue<R>)
        ensures
            q@ == Seq::<PendingView<R>>::empty(),
    {
        let q = AnswerQueue { entries: Vec::new() };
        assert(q@ =~= Seq::<PendingView<R>>::empty());
        q
    }

    /// Number of requests in the queue.
    pub fn len(&self) -> (n: usize)
        ensures
            n == self@.len(),
    {
        self.entries.len()
    }

    /// Whether the test holds of a request in the queue: the caller's way
    /// to see whether a request like the one it is about to make is there
    /// already.
    pub fn any<F: Fn(&R) -> bool>(&self, test: F) -> (found: bool)
        requires
            forall|r: &R| call_requires(test, (r,)),
        ensures
            found ==> exists|i: int|
                0 <= i < self@.len() && call_ensures(test, (&(#[trigger] self@[i]).request,), true),
            !found ==> forall|i: int|
                0 <= i < self@.len() ==> call_ensures(
                    test,
                    (&(#[trigger] self@[i]).request,),
                    false,
                ),
    {
        let mut i: usize = 0;
        while i < self.entries.len()
            invariant
                i <= self.entries@.len(),
                self@.len() == self.entries@.len(),
                forall|r: &R| call_requires(test, (r,)),
                forall|k: int|
                    0 <= k < i ==> call_ensures(test, (&(#[trigger] self@[k]).request,), false),
            decreases self.entries@.len() - i,
        {
            let hit = test(&self.entries[i].request);
            assert(self@[i as int] == self.entries@[i as int]@);
            if hit {
                return true;
            }
            i += 1;
        }
        false
    }

    /// Queues a request for the operation it asks for, with the answer
    /// an operation starts with.
    pub fn push(&mut self, request: R, asked: FunId)
        ensures
            final(self)@ == old(self)@.push(queued(request, asked)),
    {
        self.entries.push(Pending { request, asked, answer: Response::new(asked) });
        assert(self@ =~= old(self)@.push(queued(request, asked)));
    }

    /// Takes an answer in: it stands, in place, for the first request that
    /// asks for the operation it answers, and every other request keeps
    /// its answer. Returns whether there was such a request.
    pub fn deliver(&mut self, res: Response) -> (taken: bool)
        ensures
            taken == exists|i: int| first_asking(old(self)@, res.fun_id, i),
            final(self)@ == answered(old(self)@, res@),
    {
        let mut i: usize = 0;
        while i < self.entries.len()
            invariant
                i <= self.entries@.len(),
                self@ == old(self)@,
                self@.len() == self.entries@.len(),
                forall|k: int| 0 <= k < i ==> (#[trigger] self@[k]).asked != res.fun_id,
            decreases self.entries@.len() - i,
        {
            assert(self@[i as int] == self.entries@[i as int]@);
            if self.entries[i].asked == res.fun_id {
                let ghost before = self@;
                proof {
                    assert(first_asking(before, res.fun_id, i as int));
                    let c = choose|j: int| first_asking(before, res.fun_id, j);
                    assert(first_asking(before, res.fun_id, c));
                    if c < i {
                        assert(before[c].asked != res.fun_id);
                    }
                    if i < c {
                        assert(before[i as int].asked == res.fun_id);
                    }
                }
                let mut taken = Vec::new();
                std::mem::swap(&mut self.entries, &mut taken);
                let old_entry = taken.remove(i);
                let Pending { request, asked, answer: _ } = old_entry;
                taken.insert(i, Pending { request, asked, answer: res });
                self.entries = taken;
                assert(self@ =~= answered(before, res@));
                return true;
            }
            i += 1;
        }
        proof {
            if exists|j: int| first_asking(self@, res.fun_id, j) {
                let c = choose|j: int| first_asking(self@, res.fun_id, j);
                assert(self@[c].asked != res.fun_id);
            }
        }
        false
    }

    /// Takes in the answers that have arrived, first to last, each for
    /// the first request that asks for the operation it answers, and
    /// shows the answer that the request made last then has.
    pub fn run_once(&mut self, batch: Vec<Response>) -> (r: Option<Response>)
        ensures
            final(self)@ == answered_all(old(self)@, batch@.map_values(|a: Response| a@)),
            r is Some == last_answer_of(final(self)@) is Some,
            r is Some ==> r->0@ == last_answer_of(final(self)@)->0,
    {
        let ghost all = batch@.map_values(|a: Response| a@);
        let mut rest = crate::order::reversed(batch);
        let ghost start = self@;
        let ghost mut done: int = 0;
        assert(all.take(0) =~= Seq::<AnswerView>::empty());
        while rest.len() > 0
            invariant
                0 <= done,
                done + rest@.len() == all.len(),
                forall|k: int|
                    0 <= k < rest@.len() ==> (#[trigger] rest@[k])@ == all[all.len() - 1 - k],
                self@ == answered_all(start, all.take(done)),
            decreases rest@.len(),
        {
            let a = rest.pop().unwrap();
            proof {
                assert(a@ == all[done]);
                let next = all.take(done + 1);
                assert(next.drop_last() =~= all.take(done));
                assert(next.last() == all[done]);
            }
            self.deliver(a);
            proof {
                done = done + 1;
            }
        }
        assert(all.take(done) =~= all);
        self.last_answer()
    }

    /// The answer that the request made last has so far.
    pub fn last_answer(&self) -> (r: Option<Response>)
        ensures
            r is Some == (self@.len() > 0),
            r is Some ==> r->0@ == self@.last().answer,
    {
        let n = self.entries.len();
        if n == 0 {
            None
        } else {
            assert(self@[n - 1] == self.entries@[n - 1]@);
            Some(self.entries[n - 1].answer.duplicate())
        }
    }

    /// Forgets the requests whose answer is to the given operation.
    pub fn clean(&mut self, fun_id: FunId)
        ensures
            final(self)@ == settled(old(self)@, fun_id),
    {
        let ghost all = self@;
        let mut taken: Vec<Pending<R>> = Vec::new();
        std::mem::swap(&mut self.entries, &mut taken);
        let mut rest = crate::order::reversed(taken);
        let mut keep: Vec<Pending<R>> = Vec::new();
        let ghost mut done: int = 0;
        proof {
            reveal(Seq::filter);
            assert(all.take(0) =~= Seq::<PendingView<R>>::empty());
            assert(keep@.map_values(|p: Pending<R>| p@) =~= Seq::<PendingView<R>>::empty());
        }
        while rest.len() > 0
            invariant
                0 <= done,
                done + rest@.len() == all.len(),
                forall|k: int|
                    0 <= k < rest@.len() ==> (#[trigger] rest@[k])@ == all[all.len() - 1 - k],
                keep@.map_values(|p: Pending<R>| p@) == settled(all.take(done), fun_id),
            decreases rest@.len(),
        {
            let p = rest.pop().unwrap();
            let ghost keep_before = keep@.map_values(|p: Pending<R>| p@);
            proof {
                reveal(Seq::filter);
                assert(p@ == all[done]);
                let next = all.take(done + 1);
                assert(next.drop_last() =~= all.take(done));
                assert(next.last() == all[done]);
            }
            if p.answer.fun_id != fun_id {
                keep.push(p);
                assert(keep@.map_values(|p: Pending<R>| p@) =~= keep_before.push(p@));
            }
            proof {
                done = done + 1;
            }
        }
        assert(all.take(done) =~= all);
        self.entries = keep;
    }
}

} // verus!
