//! Tools: what a tool provides, the tools that the server comes with, and
//! the registry that holds them under their names.

use crate::host::{
    entries_view, replies_view, DirEntry, DirEntryView, HostReply, HostReplyView, HostRequest,
    HostRequestView,
};
use crate::json::{
    items_view, lemma_items_view, lemma_items_view_push, str_eq, Json, JsonValue, NumberValue,
};
use crate::text::{decimal, decimal_text, glue, join, joined, texts};
use crate::types::{
    tools_view, CallRequestView, CallResultView, CallToolRequest, CallToolResponse, ContentView,
    Tool, ToolView,
};
use vstd::prelude::*;
use vstd::string::*;

verus! {

/// A failure of the handler itself, as opposed to a failure that the tool
/// reports in its result.
#[derive(Debug, Clone, PartialEq, Eq)]
pub struct ToolError {
    pub message: String,
}

/// Where a call of a tool stands.
#[derive(Debug, Clone, PartialEq, Eq)]
pub enum ToolStep {
    /// The tool has its result.
    Done(CallToolResponse),
    /// The handler failed.
    Failed(ToolError),
    /// The tool needs an answer from the host before it can go on.
    Ask(HostRequest),
}

/// The mathematical content of a [`ToolStep`].
pub enum StepView {
    Done(CallResultView),
    Failed(Seq<char>),
    Ask(HostRequestView),
}

impl View for ToolStep {
    type V = StepView;

    open spec fn view(&self) -> StepView {
        match self {
            ToolStep::Done(response) => StepView::Done(response@),
            ToolStep::Failed(error) => StepView::Failed(error.message@),
            ToolStep::Ask(request) => StepView::Ask(request@),
        }
    }
}

/// What every tool provides: a description, a schema of its arguments, and
/// the call itself.
///
/// A call is a function of the arguments and of the answers that the host
/// has given so far. It starts with no answers. Where the tool needs
/// something from the host it returns [`ToolStep::Ask`], and is called again
/// with the same arguments and the answer added at the end.
pub trait ToolHandler: Send + Sync {
    /// The description, as a value.
    spec fn description_spec(&self) -> Seq<char>;

    /// The schema of the arguments, as a value.
    spec fn schema_spec(&self) -> JsonValue;

    /// The step that the tool takes on `args` after `replies`.
    spec fn call_spec(&self, args: JsonValue, replies: Seq<HostReplyView>) -> StepView;

    fn description(&self) -> (r: String)
        ensures
            r@ == self.description_spec(),
    ;

    fn input_schema(&self) -> (r: Json)
        ensures
            r@ == self.schema_spec(),
    ;

    fn call(&self, args: &Json, replies: &Vec<HostReply>) -> (r: ToolStep)
        ensures
            r@ == self.call_spec(args@, replies_view(replies@)),
    ;
}

/// The string under `key`, where `args` is an object that has one there.
pub open spec fn text_field(args: JsonValue, key: Seq<char>) -> Option<Seq<char>> {
    match args.field(key) {
        Some(JsonValue::Str(text)) => Some(text),
        _ => None,
    }
}

/// The string under `key`, where `args` is an object that has one there.
pub fn text_argument<'a>(args: &'a Json, key: &str) -> (r: Option<&'a str>)
    ensures
        match r {
            Some(text) => text_field(args@, key@) == Some(text@),
            None => text_field(args@, key@) is None,
        },
{
    match args.get(key) {
        Some(Json::Str(text)) => Some(text.as_str()),
        _ => None,
    }
}

/// The schema of a property of the given type with a description.
pub open spec fn property(kind: Seq<char>, description: Seq<char>) -> JsonValue {
    JsonValue::empty_object().with("type"@, JsonValue::Str(kind)).with(
        "description"@,
        JsonValue::Str(description),
    )
}

fn make_property(kind: &str, description: &str) -> (r: Json)
    ensures
        r@ == property(kind@, description@),
{
    Json::object().with("type", Json::text(kind)).with("description", Json::text(description))
}

/// The schema of an object with the given properties.
pub open spec fn object_schema(properties: JsonValue) -> JsonValue {
    JsonValue::empty_object().with("type"@, JsonValue::Str("object"@)).with(
        "properties"@,
        properties,
    )
}

fn make_object_schema(properties: Json) -> (r: Json)
    ensures
        r@ == object_schema(properties@),
{
    Json::object().with("type", Json::text("object")).with("properties", properties)
}

/// The list of required properties that names one property.
pub open spec fn required(name: Seq<char>) -> JsonValue {
    JsonValue::Array(seq![JsonValue::Str(name)])
}

fn make_required(name: &str) -> (r: Json)
    ensures
        r@ == required(name@),
{
    let item = Json::text(name);
    let mut names: Vec<Json> = Vec::new();
    proof {
        lemma_items_view_push(names@, item);
    }
    names.push(item);
    Json::Array(names)
}

/// Hands the text back.
#[derive(Debug, Clone, Copy, PartialEq, Eq)]
pub struct EchoTool;

impl EchoTool {
    /// What `echo` answers for a text.
    pub open spec fn answer(text: Seq<char>) -> Seq<char> {
        "Echo: "@ + text
    }
}

impl ToolHandler for EchoTool {
    open spec fn description_spec(&self) -> Seq<char> {
        "Echo back the provided text"@
    }

    open spec fn schema_spec(&self) -> JsonValue {
        object_schema(
            JsonValue::empty_object().with("text"@, property("string"@, "Text to echo back"@)),
        ).with("required"@, required("text"@))
    }

    open spec fn call_spec(&self, args: JsonValue, replies: Seq<HostReplyView>) -> StepView {
        let text = match text_field(args, "text"@) {
            Some(text) => text,
            None => "No text provided"@,
        };
        StepView::Done(CallResultView::text(EchoTool::answer(text)))
    }

    fn description(&self) -> (r: String) {
        "Echo back the provided text".to_owned()
    }

    fn input_schema(&self) -> (r: Json) {
        let properties = Json::object().with(
            "text",
            make_property("string", "Text to echo back"),
        );
        make_object_schema(properties).with("required", make_required("text"))
    }

    fn call(&self, args: &Json, replies: &Vec<HostReply>) -> (r: ToolStep) {
        let text = match text_argument(args, "text") {
            Some(text) => text,
            None => "No text provided",
        };
        ToolStep::Done(CallToolResponse::text(glue("Echo: ", text)))
    }
}

/// The step of a tool that got an answer which it did not ask for.
pub open spec fn unexpected_reply() -> StepView {
    StepView::Failed("Unexpected reply from the host"@)
}

fn make_unexpected_reply() -> (r: ToolStep)
    ensures
        r@ == unexpected_reply(),
{
    ToolStep::Failed(ToolError { message: "Unexpected reply from the host".to_owned() })
}

/// Reports the operating system, the architecture and the host name.
#[derive(Debug, Clone, Copy, PartialEq, Eq)]
pub struct SystemInfoTool;

impl SystemInfoTool {
    /// The report for the three facts.
    pub open spec fn report(os: Seq<char>, arch: Seq<char>, host: Seq<char>) -> Seq<char> {
        "System Information:\n- OS: "@ + os + "\n- Architecture: "@ + arch + "\n- Hostname: "@
            + host
    }
}

impl ToolHandler for SystemInfoTool {
    open spec fn description_spec(&self) -> Seq<char> {
        "Get basic system information"@
    }

    open spec fn schema_spec(&self) -> JsonValue {
        object_schema(JsonValue::empty_object()).with(
            "additionalProperties"@,
            JsonValue::Bool(false),
        )
    }

    open spec fn call_spec(&self, args: JsonValue, replies: Seq<HostReplyView>) -> StepView {
        if replies.len() == 0 {
            StepView::Ask(HostRequestView::Platform)
        } else if replies.len() == 1 {
            match replies[0] {
                HostReplyView::Platform { os, arch } => StepView::Ask(HostRequestView::HostName),
                _ => unexpected_reply(),
            }
        } else if replies.len() == 2 {
            match (replies[0], replies[1]) {
                (HostReplyView::Platform { os, arch }, HostReplyView::HostName(host)) => {
                    StepView::Done(CallResultView::text(SystemInfoTool::report(os, arch, host)))
                },
                _ => unexpected_reply(),
            }
        } else {
            unexpected_reply()
        }
    }

    fn description(&self) -> (r: String) {
        "Get basic system information".to_owned()
    }

    fn input_schema(&self) -> (r: Json) {
        make_object_schema(Json::object()).with("additionalProperties", Json::Bool(false))
    }

    fn call(&self, args: &Json, replies: &Vec<HostReply>) -> (r: ToolStep) {
        if replies.len() == 0 {
            ToolStep::Ask(HostRequest::Platform)
        } else if replies.len() == 1 {
            match &replies[0] {
                HostReply::Platform { os, arch } => ToolStep::Ask(HostRequest::HostName),
                _ => make_unexpected_reply(),
            }
        } else if replies.len() == 2 {
            match (&replies[0], &replies[1]) {
                (HostReply::Platform { os, arch }, HostReply::HostName(host)) => {
                    let mut report = "System Information:\n- OS: ".to_owned();
                    report.append(os.as_str());
                    report.append("\n- Architecture: ");
                    report.append(arch.as_str());
                    report.append("\n- Hostname: ");
                    report.append(host.as_str());
                    ToolStep::Done(CallToolResponse::text(report))
                },
                _ => make_unexpected_reply(),
            }
        } else {
            make_unexpected_reply()
        }
    }
}

/// Lists the entries of a directory.
#[derive(Debug, Clone, Copy, PartialEq, Eq)]
pub struct ListFilesTool;

impl ListFilesTool {
    /// The directory that is listed: the `path` argument, or the current
    /// directory.
    pub open spec fn path(args: JsonValue) -> Seq<char> {
        match text_field(args, "path"@) {
            Some(path) => path,
            None => "."@,
        }
    }

    /// The line for one entry: its name and, in brackets, its kind.
    pub open spec fn line(entry: DirEntryView) -> Seq<char> {
        entry.name + " ("@ + (if entry.is_dir {
            "directory"@
        } else {
            "file"@
        }) + ")"@
    }

    /// The lines for the entries, in order.
    pub open spec fn lines(entries: Seq<DirEntryView>) -> Seq<Seq<char>> {
        Seq::new(entries.len(), |i: int| ListFilesTool::line(entries[i]))
    }

    /// The listing of a directory.
    pub open spec fn listing(path: Seq<char>, entries: Seq<DirEntryView>) -> Seq<char> {
        if entries.len() == 0 {
            "Directory is empty"@
        } else {
            "Files in "@ + path + ":\n"@ + joined(ListFilesTool::lines(entries), "\n"@)
        }
    }

    fn render(path: &str, entries: &Vec<DirEntry>) -> (r: String)
        ensures
            r@ == ListFilesTool::listing(path@, entries_view(entries@)),
    {
        let mut lines: Vec<String> = Vec::new();
        let mut i: usize = 0;
        while i < entries.len()
            invariant
                i <= entries@.len(),
                lines@.len() == i,
                texts(lines@) == ListFilesTool::lines(entries_view(entries@)).take(i as int),
            decreases entries@.len() - i,
        {
            let mut line = entries[i].name.clone();
            line.append(" (");
            line.append(
                if entries[i].is_dir {
                    "directory"
                } else {
                    "file"
                },
            );
            line.append(")");
            proof {
                let all = ListFilesTool::lines(entries_view(entries@));
                let grown = texts(lines@.push(line));
                assert forall|k: int| 0 <= k < i + 1 implies grown[k] == all.take(i as int + 1)[k] by {}
            }
            lines.push(line);
            i = i + 1;
        }
        assert(ListFilesTool::lines(entries_view(entries@)).take(i as int)
            =~= ListFilesTool::lines(entries_view(entries@)));
        if lines.len() == 0 {
            "Directory is empty".to_owned()
        } else {
            let mut r = "Files in ".to_owned();
            r.append(path);
            r.append(":\n");
            r.append(join(&lines, "\n").as_str());
            r
        }
    }
}

impl ToolHandler for ListFilesTool {
    open spec fn description_spec(&self) -> Seq<char> {
        "List files in a directory"@
    }

    open spec fn schema_spec(&self) -> JsonValue {
        object_schema(
            JsonValue::empty_object().with(
                "path"@,
                property("string"@, "Directory path to list"@).with(
                    "default"@,
                    JsonValue::Str("."@),
                ),
            ),
        )
    }

    open spec fn call_spec(&self, args: JsonValue, replies: Seq<HostReplyView>) -> StepView {
        let path = ListFilesTool::path(args);
        if replies.len() == 0 {
            StepView::Ask(HostRequestView::ListDir { path })
        } else if replies.len() == 1 {
            match replies[0] {
                HostReplyView::DirEntries(entries) => StepView::Done(
                    CallResultView::text(ListFilesTool::listing(path, entries)),
                ),
                HostReplyView::Failed(why) => StepView::Done(
                    CallResultView::error("Error listing directory: "@ + why),
                ),
                _ => unexpected_reply(),
            }
        } else {
            unexpected_reply()
        }
    }

    fn description(&self) -> (r: String) {
        "List files in a directory".to_owned()
    }

    fn input_schema(&self) -> (r: Json) {
        let path = make_property("string", "Directory path to list").with(
            "default",
            Json::text("."),
        );
        make_object_schema(Json::object().with("path", path))
    }

    fn call(&self, args: &Json, replies: &Vec<HostReply>) -> (r: ToolStep) {
        let path = match text_argument(args, "path") {
            Some(path) => path,
            None => ".",
        };
        if replies.len() == 0 {
            ToolStep::Ask(HostRequest::ListDir { path: path.to_owned() })
        } else if replies.len() == 1 {
            match &replies[0] {
                HostReply::DirEntries(entries) => ToolStep::Done(
                    CallToolResponse::text(ListFilesTool::render(path, entries)),
                ),
                HostReply::Failed(why) => ToolStep::Done(
                    CallToolResponse::error(glue("Error listing directory: ", why.as_str())),
                ),
                _ => make_unexpected_reply(),
            }
        } else {
            make_unexpected_reply()
        }
    }
}

/// Reads a file, unless it is larger than a limit.
#[derive(Debug, Clone, Copy, PartialEq, Eq)]
pub struct ReadFileTool;

impl ReadFileTool {
    /// The limit where the arguments give none: one mebibyte.
    pub open spec fn default_max_size() -> u64 {
        1048576
    }

    /// The largest size, in bytes, that is read: the `max_size` argument
    /// where it is an unsigned integer, or the default.
    pub open spec fn max_size(args: JsonValue) -> u64 {
        match args.field("max_size"@) {
            Some(value) => match value.unsigned() {
                Some(size) => size,
                None => ReadFileTool::default_max_size(),
            },
            None => ReadFileTool::default_max_size(),
        }
    }

    /// What the tool says of a file that is over the limit.
    pub open spec fn too_large(size: u64, max_size: u64) -> Seq<char> {
        "File is too large ("@ + decimal(size as nat) + " bytes, max: "@ + decimal(max_size as nat)
            + " bytes)"@
    }

    /// What the tool says of a file that was read.
    pub open spec fn contents(path: Seq<char>, text: Seq<char>) -> Seq<char> {
        "Contents of "@ + path + ":\n"@ + text
    }

    /// The step for a file at `path` with the limit `max_size`.
    pub open spec fn step(path: Seq<char>, max_size: u64, replies: Seq<HostReplyView>) -> StepView {
        if replies.len() == 0 {
            StepView::Ask(HostRequestView::FileSize { path })
        } else if replies.len() == 1 {
            match replies[0] {
                HostReplyView::FileSize(size) => if size > max_size {
                    StepView::Done(CallResultView::error(ReadFileTool::too_large(size, max_size)))
                } else {
                    StepView::Ask(HostRequestView::FileText { path })
                },
                HostReplyView::Failed(why) => StepView::Done(
                    CallResultView::error("Error accessing file: "@ + why),
                ),
                _ => unexpected_reply(),
            }
        } else if replies.len() == 2 {
            match (replies[0], replies[1]) {
                (HostReplyView::FileSize(size), HostReplyView::FileText(text)) => if size
                    <= max_size {
                    StepView::Done(CallResultView::text(ReadFileTool::contents(path, text)))
                } else {
                    unexpected_reply()
                },
                (HostReplyView::FileSize(size), HostReplyView::Failed(why)) => if size
                    <= max_size {
                    StepView::Done(CallResultView::error("Error reading file: "@ + why))
                } else {
                    unexpected_reply()
                },
                _ => unexpected_reply(),
            }
        } else {
            unexpected_reply()
        }
    }

    fn limit(args: &Json) -> (r: u64)
        ensures
            r == ReadFileTool::max_size(args@),
    {
        match args.get("max_size") {
            Some(value) => match value.as_u64() {
                Some(size) => size,
                None => 1048576,
            },
            None => 1048576,
        }
    }

    fn say_too_large(size: u64, max_size: u64) -> (r: String)
        ensures
            r@ == ReadFileTool::too_large(size, max_size),
    {
        let mut r = "File is too large (".to_owned();
        r.append(decimal_text(size).as_str());
        r.append(" bytes, max: ");
        r.append(decimal_text(max_size).as_str());
        r.append(" bytes)");
        r
    }

    fn say_contents(path: &str, text: &str) -> (r: String)
        ensures
            r@ == ReadFileTool::contents(path@, text@),
    {
        let mut r = "Contents of ".to_owned();
        r.append(path);
        r.append(":\n");
        r.append(text);
        r
    }

    fn advance(path: &str, max_size: u64, replies: &Vec<HostReply>) -> (r: ToolStep)
        ensures
            r@ == ReadFileTool::step(path@, max_size, replies_view(replies@)),
    {
        if replies.len() == 0 {
            ToolStep::Ask(HostRequest::FileSize { path: path.to_owned() })
        } else if replies.len() == 1 {
            match &replies[0] {
                HostReply::FileSize(size) => if *size > max_size {
                    ToolStep::Done(
                        CallToolResponse::error(ReadFileTool::say_too_large(*size, max_size)),
                    )
                } else {
                    ToolStep::Ask(HostRequest::FileText { path: path.to_owned() })
                },
                HostReply::Failed(why) => ToolStep::Done(
                    CallToolResponse::error(glue("Error accessing file: ", why.as_str())),
                ),
                _ => make_unexpected_reply(),
            }
        } else if replies.len() == 2 {
            match (&replies[0], &replies[1]) {
                (HostReply::FileSize(size), HostReply::FileText(text)) => if *size <= max_size {
                    ToolStep::Done(
                        CallToolResponse::text(ReadFileTool::say_contents(path, text.as_str())),
                    )
                } else {
                    make_unexpected_reply()
                },
                (HostReply::FileSize(size), HostReply::Failed(why)) => if *size <= max_size {
                    ToolStep::Done(
                        CallToolResponse::error(glue("Error reading file: ", why.as_str())),
                    )
                } else {
                    make_unexpected_reply()
                },
                _ => make_unexpected_reply(),
            }
        } else {
            make_unexpected_reply()
        }
    }
}

impl ToolHandler for ReadFileTool {
    open spec fn description_spec(&self) -> Seq<char> {
        "Read the contents of a file"@
    }

    open spec fn schema_spec(&self) -> JsonValue {
        object_schema(
            JsonValue::empty_object().with(
                "path"@,
                property("string"@, "Path to the file to read"@),
            ).with(
                "max_size"@,
                property("integer"@, "Maximum file size to read in bytes"@).with(
                    "default"@,
                    JsonValue::Num(
                        NumberValue::Int(ReadFileTool::default_max_size() as int),
                    ),
                ),
            ),
        ).with("required"@, required("path"@))
    }

    open spec fn call_spec(&self, args: JsonValue, replies: Seq<HostReplyView>) -> StepView {
        match text_field(args, "path"@) {
            Some(path) => ReadFileTool::step(path, ReadFileTool::max_size(args), replies),
            None => StepView::Failed("Path is required"@),
        }
    }

    fn description(&self) -> (r: String) {
        "Read the contents of a file".to_owned()
    }

    fn input_schema(&self) -> (r: Json) {
        let path = make_property("string", "Path to the file to read");
        let max_size = make_property("integer", "Maximum file size to read in bytes").with(
            "default",
            Json::from_u64(1048576),
        );
        let properties = Json::object().with("path", path).with("max_size", max_size);
        make_object_schema(properties).with("required", make_required("path"))
    }

    fn call(&self, args: &Json, replies: &Vec<HostReply>) -> (r: ToolStep) {
        match text_argument(args, "path") {
            Some(path) => ReadFileTool::advance(path, ReadFileTool::limit(args), replies),
            None => ToolStep::Failed(ToolError { message: "Path is required".to_owned() }),
        }
    }
}

/// The strings among the items, in order.
pub open spec fn string_items(items: Seq<JsonValue>) -> Seq<Seq<char>>
    decreases items.len(),
{
    if items.len() == 0 {
        Seq::empty()
    } else {
        match items.last() {
            JsonValue::Str(text) => string_items(items.drop_last()).push(text),
            _ => string_items(items.drop_last()),
        }
    }
}

/// The strings among the items of an array, in order.
fn collect_strings(items: &Vec<Json>) -> (r: Vec<String>)
    ensures
        texts(r@) == string_items(items_view(items@)),
{
    let mut found: Vec<String> = Vec::new();
    let mut i: usize = 0;
    proof {
        lemma_items_view(items@);
    }
    while i < items.len()
        invariant
            i <= items@.len(),
            items_view(items@).len() == items@.len(),
            forall|k: int| 0 <= k < items@.len() ==> #[trigger] items_view(items@)[k] == items@[k]@,
            texts(found@) == string_items(items_view(items@).take(i as int)),
        decreases items@.len() - i,
    {
        proof {
            let values = items_view(items@);
            assert(values.take(i as int + 1).drop_last() =~= values.take(i as int));
        }
        match &items[i] {
            Json::Str(text) => {
                let copy = text.clone();
                found.push(copy);
            },
            _ => {},
        }
        i = i + 1;
    }
    assert(items_view(items@).take(i as int) =~= items_view(items@));
    found
}

/// Whether `list` holds `text`.
fn holds(list: &Vec<String>, text: &str) -> (r: bool)
    ensures
        r == texts(list@).contains(text@),
{
    let mut i: usize = 0;
    while i < list.len()
        invariant
            i <= list@.len(),
            forall|k: int| 0 <= k < i ==> texts(list@)[k] != text@,
        decreases list@.len() - i,
    {
        if str_eq(list[i].as_str(), text) {
            assert(texts(list@)[i as int] == text@);
            return true;
        }
        i = i + 1;
    }
    false
}

/// Runs one of a few harmless commands.
#[derive(Debug, Clone, Copy, PartialEq, Eq)]
pub struct ExecuteCommandTool;

impl ExecuteCommandTool {
    /// The commands that may be run.
    pub open spec fn allowed_commands() -> Seq<Seq<char>> {
        seq!["echo"@, "date"@, "whoami"@, "pwd"@, "ls"@, "cat"@, "head"@, "tail"@, "wc"@]
    }

    /// Whether `command` may be run.
    pub open spec fn is_allowed(command: Seq<char>) -> bool {
        ExecuteCommandTool::allowed_commands().contains(command)
    }

    /// What the tool says of a command that may not be run.
    pub open spec fn refusal(command: Seq<char>) -> Seq<char> {
        "Command '"@ + command + "' is not allowed. Allowed commands: "@ + joined(
            ExecuteCommandTool::allowed_commands(),
            ", "@,
        )
    }

    /// The arguments of the command: the strings in the `args` array.
    pub open spec fn arguments(args: JsonValue) -> Seq<Seq<char>> {
        match args.field("args"@) {
            Some(JsonValue::Array(items)) => string_items(items),
            _ => Seq::empty(),
        }
    }

    /// The report of a command that ran.
    pub open spec fn report(
        command: Seq<char>,
        arguments: Seq<Seq<char>>,
        stdout: Seq<char>,
        stderr: Seq<char>,
    ) -> Seq<char> {
        if stderr.len() > 0 {
            "Command: "@ + command + " "@ + joined(arguments, " "@) + "\nSTDOUT:\n"@ + stdout
                + "\nSTDERR:\n"@ + stderr
        } else {
            "Command: "@ + command + " "@ + joined(arguments, " "@) + "\nOutput:\n"@ + stdout
        }
    }

    /// The step for a command that may be run.
    pub open spec fn step(
        command: Seq<char>,
        arguments: Seq<Seq<char>>,
        replies: Seq<HostReplyView>,
    ) -> StepView {
        if replies.len() == 0 {
            StepView::Ask(HostRequestView::Run { command, args: arguments })
        } else if replies.len() == 1 {
            match replies[0] {
                HostReplyView::Ran { stdout, stderr, success } => StepView::Done(
                    CallResultView {
                        content: seq![
                            ContentView::Text {
                                text: ExecuteCommandTool::report(command, arguments, stdout, stderr),
                            },
                        ],
                        is_error: if success {
                            None
                        } else {
                            Some(true)
                        },
                    },
                ),
                HostReplyView::Failed(why) => StepView::Done(
                    CallResultView::error("Error executing command: "@ + why),
                ),
                _ => unexpected_reply(),
            }
        } else {
            unexpected_reply()
        }
    }

    fn allowed() -> (r: Vec<String>)
        ensures
            texts(r@) == ExecuteCommandTool::allowed_commands(),
    {
        let mut list: Vec<String> = Vec::new();
        list.push("echo".to_owned());
        list.push("date".to_owned());
        list.push("whoami".to_owned());
        list.push("pwd".to_owned());
        list.push("ls".to_owned());
        list.push("cat".to_owned());
        list.push("head".to_owned());
        list.push("tail".to_owned());
        list.push("wc".to_owned());
        list
    }

    fn command_arguments(args: &Json) -> (r: Vec<String>)
        ensures
            texts(r@) == ExecuteCommandTool::arguments(args@),
    {
        match args.get("args") {
            Some(Json::Array(items)) => collect_strings(items),
            _ => {
                let none: Vec<String> = Vec::new();
                none
            },
        }
    }

    fn say_report(command: &str, arguments: &Vec<String>, stdout: &str, stderr: &str) -> (r: String)
        ensures
            r@ == ExecuteCommandTool::report(command@, texts(arguments@), stdout@, stderr@),
    {
        let mut r = "Command: ".to_owned();
        r.append(command);
        r.append(" ");
        r.append(join(arguments, " ").as_str());
        if !stderr.is_empty() {
            r.append("\nSTDOUT:\n");
            r.append(stdout);
            r.append("\nSTDERR:\n");
            r.append(stderr);
        } else {
            r.append("\nOutput:\n");
            r.append(stdout);
        }
        r
    }

    fn advance(command: &str, arguments: Vec<String>, replies: &Vec<HostReply>) -> (r: ToolStep)
        ensures
            r@ == ExecuteCommandTool::step(command@, texts(arguments@), replies_view(replies@)),
    {
        if replies.len() == 0 {
            ToolStep::Ask(HostRequest::Run { command: command.to_owned(), args: arguments })
        } else if replies.len() == 1 {
            match &replies[0] {
                HostReply::Ran { stdout, stderr, success } => {
                    let text = ExecuteCommandTool::say_report(
                        command,
                        &arguments,
                        stdout.as_str(),
                        stderr.as_str(),
                    );
                    let mut response = CallToolResponse::text(text);
                    if !*success {
                        response.is_error = Some(true);
                    }
                    ToolStep::Done(response)
                },
                HostReply::Failed(why) => ToolStep::Done(
                    CallToolResponse::error(glue("Error executing command: ", why.as_str())),
                ),
                _ => make_unexpected_reply(),
            }
        } else {
            make_unexpected_reply()
        }
    }
}

impl ToolHandler for ExecuteCommandTool {
    open spec fn description_spec(&self) -> Seq<char> {
        "Execute a safe system command (restricted for security)"@
    }

    open spec fn schema_spec(&self) -> JsonValue {
        object_schema(
            JsonValue::empty_object().with(
                "command"@,
                property("string"@, "Command to execute"@),
            ).with(
                "args"@,
                JsonValue::empty_object().with("type"@, JsonValue::Str("array"@)).with(
                    "items"@,
                    JsonValue::empty_object().with("type"@, JsonValue::Str("string"@)),
                ).with("description"@, JsonValue::Str("Command arguments"@)),
            ),
        ).with("required"@, required("command"@))
    }

    open spec fn call_spec(&self, args: JsonValue, replies: Seq<HostReplyView>) -> StepView {
        match text_field(args, "command"@) {
            Some(command) => if ExecuteCommandTool::is_allowed(command) {
                ExecuteCommandTool::step(command, ExecuteCommandTool::arguments(args), replies)
            } else {
                StepView::Done(CallResultView::error(ExecuteCommandTool::refusal(command)))
            },
            None => StepView::Failed("Command is required"@),
        }
    }

    fn description(&self) -> (r: String) {
        "Execute a safe system command (restricted for security)".to_owned()
    }

    fn input_schema(&self) -> (r: Json) {
        let command = make_property("string", "Command to execute");
        let arguments = Json::object().with("type", Json::text("array")).with(
            "items",
            Json::object().with("type", Json::text("string")),
        ).with("description", Json::text("Command arguments"));
        let properties = Json::object().with("command", command).with("args", arguments);
        make_object_schema(properties).with("required", make_required("command"))
    }

    fn call(&self, args: &Json, replies: &Vec<HostReply>) -> (r: ToolStep) {
        match text_argument(args, "command") {
            Some(command) => {
                let allowed = ExecuteCommandTool::allowed();
                if holds(&allowed, command) {
                    ExecuteCommandTool::advance(
                        command,
                        ExecuteCommandTool::command_arguments(args),
                        replies,
                    )
                } else {
                    let mut text = "Command '".to_owned();
                    text.append(command);
                    text.append("' is not allowed. Allowed commands: ");
                    text.append(join(&allowed, ", ").as_str());
                    ToolStep::Done(CallToolResponse::error(text))
                }
            },
            None => ToolStep::Failed(ToolError { message: "Command is required".to_owned() }),
        }
    }
}

/// The tools that the server comes with.
#[derive(Debug, Clone, Copy, PartialEq, Eq)]
pub enum BuiltinTool {
    Echo(EchoTool),
    SystemInfo(SystemInfoTool),
    ListFiles(ListFilesTool),
    ReadFile(ReadFileTool),
    ExecuteCommand(ExecuteCommandTool),
}

impl ToolHandler for BuiltinTool {
    open spec fn description_spec(&self) -> Seq<char> {
        match self {
            BuiltinTool::Echo(tool) => tool.description_spec(),
            BuiltinTool::SystemInfo(tool) => tool.description_spec(),
            BuiltinTool::ListFiles(tool) => tool.description_spec(),
            BuiltinTool::ReadFile(tool) => tool.description_spec(),
            BuiltinTool::ExecuteCommand(tool) => tool.description_spec(),
        }
    }

    open spec fn schema_spec(&self) -> JsonValue {
        match self {
            BuiltinTool::Echo(tool) => tool.schema_spec(),
            BuiltinTool::SystemInfo(tool) => tool.schema_spec(),
            BuiltinTool::ListFiles(tool) => tool.schema_spec(),
            BuiltinTool::ReadFile(tool) => tool.schema_spec(),
            BuiltinTool::ExecuteCommand(tool) => tool.schema_spec(),
        }
    }

    open spec fn call_spec(&self, args: JsonValue, replies: Seq<HostReplyView>) -> StepView {
        match self {
            BuiltinTool::Echo(tool) => tool.call_spec(args, replies),
            BuiltinTool::SystemInfo(tool) => tool.call_spec(args, replies),
            BuiltinTool::ListFiles(tool) => tool.call_spec(args, replies),
            BuiltinTool::ReadFile(tool) => tool.call_spec(args, replies),
            BuiltinTool::ExecuteCommand(tool) => tool.call_spec(args, replies),
        }
    }

    fn description(&self) -> (r: String) {
        match self {
            BuiltinTool::Echo(tool) => tool.description(),
            BuiltinTool::SystemInfo(tool) => tool.description(),
            BuiltinTool::ListFiles(tool) => tool.description(),
            BuiltinTool::ReadFile(tool) => tool.description(),
            BuiltinTool::ExecuteCommand(tool) => tool.description(),
        }
    }

    fn input_schema(&self) -> (r: Json) {
        match self {
            BuiltinTool::Echo(tool) => tool.input_schema(),
            BuiltinTool::SystemInfo(tool) => tool.input_schema(),
            BuiltinTool::ListFiles(tool) => tool.input_schema(),
            BuiltinTool::ReadFile(tool) => tool.input_schema(),
            BuiltinTool::ExecuteCommand(tool) => tool.input_schema(),
        }
    }

    fn call(&self, args: &Json, replies: &Vec<HostReply>) -> (r: ToolStep) {
        match self {
            BuiltinTool::Echo(tool) => tool.call(args, replies),
            BuiltinTool::SystemInfo(tool) => tool.call(args, replies),
            BuiltinTool::ListFiles(tool) => tool.call(args, replies),
            BuiltinTool::ReadFile(tool) => tool.call(args, replies),
            BuiltinTool::ExecuteCommand(tool) => tool.call(args, replies),
        }
    }
}

/// Why a tool was not registered.
#[derive(Debug, Clone, Copy, PartialEq, Eq)]
pub enum RegistryError {
    /// The name is empty.
    EmptyName,
    /// A tool of that name is registered already.
    DuplicateName,
}

/// The index of the first entry with the given name.
pub open spec fn position<H>(entries: Seq<(Seq<char>, H)>, name: Seq<char>) -> Option<int>
    decreases entries.len(),
{
    if entries.len() == 0 {
        None
    } else {
        match position(entries.drop_last(), name) {
            Some(i) => Some(i),
            None => if entries.last().0 == name {
                Some(entries.len() - 1)
            } else {
                None
            },
        }
    }
}

/// No name is empty and no name occurs twice.
pub open spec fn names_are_distinct<H>(entries: Seq<(Seq<char>, H)>) -> bool {
    &&& forall|i: int| 0 <= i < entries.len() ==> (#[trigger] entries[i]).0.len() > 0
    &&& forall|i: int, j: int|
        0 <= i < j < entries.len() ==> (#[trigger] entries[i]).0 != (#[trigger] entries[j]).0
}

/// What `tools/list` says of the entries, in their order.
pub open spec fn listing<H: ToolHandler>(entries: Seq<(Seq<char>, H)>) -> Seq<ToolView> {
    Seq::new(
        entries.len(),
        |i: int|
            ToolView {
                name: entries[i].0,
                description: entries[i].1.description_spec(),
                input_schema: entries[i].1.schema_spec(),
            },
    )
}

/// What the tool says where no tool has the name.
pub open spec fn not_found(name: Seq<char>) -> Seq<char> {
    "Tool '"@ + name + "' not found"@
}

/// The step of a call: that of the tool with the name, on the arguments
/// given or on the empty object; a result that reports the failure where no
/// tool has the name.
pub open spec fn call_step<H: ToolHandler>(
    entries: Seq<(Seq<char>, H)>,
    request: CallRequestView,
    replies: Seq<HostReplyView>,
) -> StepView {
    match position(entries, request.name) {
        Some(i) => entries[i].1.call_spec(request.effective_arguments(), replies),
        None => StepView::Done(CallResultView::error(not_found(request.name))),
    }
}

/// Where `position` finds a name, the entry there has it.
pub proof fn lemma_position_is_sound<H>(entries: Seq<(Seq<char>, H)>, name: Seq<char>)
    ensures
        match position(entries, name) {
            Some(i) => 0 <= i < entries.len() && entries[i].0 == name,
            None => forall|k: int| 0 <= k < entries.len() ==> (#[trigger] entries[k]).0 != name,
        },
    decreases entries.len(),
{
    if entries.len() > 0 {
        let front = entries.drop_last();
        lemma_position_is_sound(front, name);
        if position(front, name) is None {
            assert forall|k: int| 0 <= k < entries.len() && entries.last().0 != name implies (
            #[trigger] entries[k]).0 != name by {
                if k < front.len() {
                    assert(front[k] == entries[k]);
                }
            }
        }
    }
}

/// The first entry with a name is the one that `position` finds.
pub proof fn lemma_position_is_first<H>(entries: Seq<(Seq<char>, H)>, name: Seq<char>, i: int)
    requires
        0 <= i < entries.len(),
        entries[i].0 == name,
        forall|k: int| 0 <= k < i ==> (#[trigger] entries[k]).0 != name,
    ensures
        position(entries, name) == Some(i),
    decreases entries.len(),
{
    let front = entries.drop_last();
    lemma_position_is_sound(front, name);
    if i < entries.len() - 1 {
        assert forall|k: int| 0 <= k < i implies (#[trigger] front[k]).0 != name by {}
        lemma_position_is_first(front, name, i);
    }
}

/// The tools of a server, each under its name.
pub struct ToolRegistry<H: ToolHandler> {
    tools: Vec<(String, H)>,
}

impl<H: ToolHandler> View for ToolRegistry<H> {
    type V = Seq<(Seq<char>, H)>;

    closed spec fn view(&self) -> Seq<(Seq<char>, H)> {
        Seq::new(self.tools@.len(), |i: int| (self.tools@[i].0@, self.tools@[i].1))
    }
}

impl<H: ToolHandler> ToolRegistry<H> {
    /// No name is empty and no name occurs twice. A registry that is made by
    /// [`ToolRegistry::empty`] or [`ToolRegistry::new`] and filled by
    /// [`ToolRegistry::register_tool`] is always so.
    pub open spec fn well_formed(&self) -> bool {
        names_are_distinct(self@)
    }

    /// The registry with no tools.
    pub fn empty() -> (r: Self)
        ensures
            r@ == Seq::<(Seq<char>, H)>::empty(),
            r.well_formed(),
    {
        let r = ToolRegistry { tools: Vec::new() };
        r
    }

    fn find(&self, name: &str) -> (r: Option<usize>)
        ensures
            match r {
                Some(i) => position(self@, name@) == Some(i as int) && i < self.tools@.len(),
                None => position(self@, name@) is None,
            },
    {
        let mut i: usize = 0;
        while i < self.tools.len()
            invariant
                i <= self.tools@.len(),
                forall|k: int| 0 <= k < i ==> (#[trigger] self@[k]).0 != name@,
            decreases self.tools@.len() - i,
        {
            if str_eq(self.tools[i].0.as_str(), name) {
                proof {
                    lemma_position_is_first(self@, name@, i as int);
                }
                return Some(i);
            }
            i = i + 1;
        }
        proof {
            lemma_position_is_sound(self@, name@);
        }
        None
    }

    /// Registers `handler` under `name`. An empty name and a name that a
    /// tool has already are refused, and the registry stays as it was.
    pub fn register_tool(&mut self, name: &str, handler: H) -> (r: Result<(), RegistryError>)
        ensures
            name@.len() == 0 ==> r == Err::<(), RegistryError>(RegistryError::EmptyName),
            name@.len() > 0 && position(old(self)@, name@) is Some ==> r == Err::<
                (),
                RegistryError,
            >(RegistryError::DuplicateName),
            name@.len() > 0 && position(old(self)@, name@) is None ==> r is Ok,
            r is Ok ==> final(self)@ == old(self)@.push((name@, handler)),
            r is Err ==> final(self)@ == old(self)@,
            old(self).well_formed() ==> final(self).well_formed(),
    {
        if name.is_empty() {
            return Err(RegistryError::EmptyName);
        }
        match self.find(name) {
            Some(_) => Err(RegistryError::DuplicateName),
            None => {
                let entry = (name.to_owned(), handler);
                proof {
                    lemma_position_is_sound(self@, name@);
                    let grown = self@.push((name@, handler));
                    assert forall|i: int, j: int|
                        self.well_formed() && 0 <= i < j < grown.len() implies (
                    #[trigger] grown[i]).0 != (#[trigger] grown[j]).0 by {}
                    assert forall|i: int| self.well_formed() && 0 <= i < grown.len() implies (
                    #[trigger] grown[i]).0.len() > 0 by {}
                }
                self.tools.push(entry);
                Ok(())
            },
        }
    }

    /// The descriptors of the tools, in the order in which they were
    /// registered.
    pub fn list_tools(&self) -> (r: Vec<Tool>)
        ensures
            tools_view(r@) == listing(self@),
            r@.len() == self@.len(),
    {
        let mut tools: Vec<Tool> = Vec::new();
        let mut i: usize = 0;
        while i < self.tools.len()
            invariant
                i <= self.tools@.len(),
                tools@.len() == i,
                tools_view(tools@) == listing(self@).take(i as int),
            decreases self.tools@.len() - i,
        {
            let tool = Tool {
                name: self.tools[i].0.clone(),
                description: self.tools[i].1.description(),
                input_schema: self.tools[i].1.input_schema(),
            };
            proof {
                let all = listing(self@);
                let grown = tools_view(tools@.push(tool));
                assert forall|k: int| 0 <= k < i + 1 implies grown[k] == all.take(i as int + 1)[k] by {}
            }
            tools.push(tool);
            i = i + 1;
        }
        tools
    }

    /// Takes the next step of a call: that of the tool that `request` names,
    /// on its arguments and the host's answers so far.
    pub fn call_tool(&self, request: &CallToolRequest, replies: &Vec<HostReply>) -> (r: ToolStep)
        ensures
            r@ == call_step(self@, request@, replies_view(replies@)),
    {
        match self.find(request.name.as_str()) {
            Some(i) => {
                match &request.arguments {
                    Some(arguments) => self.tools[i].1.call(arguments, replies),
                    None => {
                        let arguments = Json::object();
                        self.tools[i].1.call(&arguments, replies)
                    },
                }
            },
            None => {
                let mut text = "Tool '".to_owned();
                text.append(request.name.as_str());
                text.append("' not found");
                ToolStep::Done(CallToolResponse::error(text))
            },
        }
    }
}

/// The names of the tools that the server comes with differ from one
/// another, and none is empty.
pub proof fn lemma_builtin_names_differ()
    ensures
        names_are_distinct(ToolRegistry::<BuiltinTool>::builtin()),
{
    reveal_strlit("echo");
    reveal_strlit("get_system_info");
    reveal_strlit("list_files");
    reveal_strlit("read_file");
    reveal_strlit("execute_command");
    assert("list_files"@.len() == 10);
    assert("read_file"@.len() == 9);
    assert("execute_command"@.len() == 15);
    assert("get_system_info"@[0] != "execute_command"@[0]);
}

impl ToolRegistry<BuiltinTool> {
    /// The tools that the server comes with, each under its name.
    pub open spec fn builtin() -> Seq<(Seq<char>, BuiltinTool)> {
        seq![
            ("echo"@, BuiltinTool::Echo(EchoTool)),
            ("get_system_info"@, BuiltinTool::SystemInfo(SystemInfoTool)),
            ("list_files"@, BuiltinTool::ListFiles(ListFilesTool)),
            ("read_file"@, BuiltinTool::ReadFile(ReadFileTool)),
            ("execute_command"@, BuiltinTool::ExecuteCommand(ExecuteCommandTool)),
        ]
    }

    /// The registry with the tools that the server comes with.
    pub fn new() -> (r: Self)
        ensures
            r@ == Self::builtin(),
            r.well_formed(),
    {
        let mut tools: Vec<(String, BuiltinTool)> = Vec::new();
        tools.push(("echo".to_owned(), BuiltinTool::Echo(EchoTool)));
        tools.push(("get_system_info".to_owned(), BuiltinTool::SystemInfo(SystemInfoTool)));
        tools.push(("list_files".to_owned(), BuiltinTool::ListFiles(ListFilesTool)));
        tools.push(("read_file".to_owned(), BuiltinTool::ReadFile(ReadFileTool)));
        tools.push(("execute_command".to_owned(), BuiltinTool::ExecuteCommand(ExecuteCommandTool)));
        let r = ToolRegistry { tools };
        proof {
            lemma_builtin_names_differ();
        }
        r
    }
}

/// What `echo` answers holds the text that it was given.
pub proof fn lemma_echo_holds_the_text(args: JsonValue, replies: Seq<HostReplyView>, text: Seq<char>)
    requires
        text_field(args, "text"@) == Some(text),
    ensures
        EchoTool.call_spec(args, replies) == StepView::Done(
            CallResultView::text(EchoTool::answer(text)),
        ),
        exists|start: int|
            0 <= start && start + text.len() == EchoTool::answer(text).len()
                && #[trigger] EchoTool::answer(text).subrange(start, start + text.len()) == text,
{
    let answer = EchoTool::answer(text);
    let start = "Echo: "@.len() as int;
    assert(answer.subrange(start, start + text.len()) =~= text);
}

/// A command that is not among the allowed ones is never run: whatever the
/// host has said, the tool reports a failure in its result.
pub proof fn lemma_command_is_refused(
    args: JsonValue,
    replies: Seq<HostReplyView>,
    command: Seq<char>,
)
    requires
        text_field(args, "command"@) == Some(command),
        !ExecuteCommandTool::is_allowed(command),
    ensures
        ExecuteCommandTool.call_spec(args, replies) == StepView::Done(
            CallResultView::error(ExecuteCommandTool::refusal(command)),
        ),
        CallResultView::error(ExecuteCommandTool::refusal(command)).is_error == Some(true),
{
}

/// With a limit of zero bytes a file that is not empty is never read: the
/// tool reports a failure in its result as soon as it knows the size.
pub proof fn lemma_limit_of_zero_refuses(args: JsonValue, path: Seq<char>, size: u64)
    requires
        text_field(args, "path"@) == Some(path),
        args.field("max_size"@) == Some(JsonValue::Num(NumberValue::Int(0))),
        size > 0,
    ensures
        ReadFileTool.call_spec(args, Seq::empty()) == StepView::Ask(
            HostRequestView::FileSize { path },
        ),
        ReadFileTool.call_spec(args, seq![HostReplyView::FileSize(size)]) == StepView::Done(
            CallResultView::error(ReadFileTool::too_large(size, 0)),
        ),
        CallResultView::error(ReadFileTool::too_large(size, 0)).is_error == Some(true),
{
}

/// Whatever the arguments and the host's answers are, a result of one of
/// the tools that the server comes with holds at least one part, and so
/// does the result that reports a tool that is not registered.
pub proof fn lemma_results_hold_a_part(
    entries: Seq<(Seq<char>, BuiltinTool)>,
    request: CallRequestView,
    replies: Seq<HostReplyView>,
)
    ensures
        call_step(entries, request, replies) matches StepView::Done(result)
            ==> result.content.len() >= 1,
{
    lemma_position_is_sound(entries, request.name);
}

} // verus!
