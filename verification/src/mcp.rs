//! The resource gateway: a fixed catalog of named backends, a capability
//! check for connecting to one, and query dispatch with usage accounting.

use vstd::prelude::*;
use vstd::string::*;
use crate::error::{AppError, AppResult};

verus! {

/// A query for the gateway: free text, optional context, and the resources
/// to consult, in order.
#[derive(Debug, Clone, PartialEq, Eq)]
pub struct McpRequest {
    pub query: String,
    pub context: Option<String>,
    pub resources: Vec<String>,
}

/// The answer of the backend that served a query.
#[derive(Debug, Clone, PartialEq, Eq)]
pub struct McpResponse {
    pub response: String,
    pub source: String,
    pub usage: McpUsage,
}

/// Unit accounting of one query and its answer.
#[derive(Debug, Clone, Copy, PartialEq, Eq)]
pub struct McpUsage {
    pub prompt_tokens: usize,
    pub completion_tokens: usize,
    pub total_tokens: usize,
}

/// A backend of the catalog.
#[derive(Debug, Clone, PartialEq, Eq)]
pub struct McpResource {
    pub id: String,
    pub name: String,
    pub description: String,
    pub capabilities: Vec<String>,
}

/// What a catalog entry says, as plain text.
pub ghost struct ResourceEntry {
    pub id: Seq<char>,
    pub name: Seq<char>,
    pub description: Seq<char>,
    pub capabilities: Seq<Seq<char>>,
}

/// The text of each string of a list.
pub open spec fn texts(items: Seq<String>) -> Seq<Seq<char>> {
    items.map_values(|s: String| s@)
}

impl View for McpResource {
    type V = ResourceEntry;

    open spec fn view(&self) -> ResourceEntry {
        ResourceEntry {
            id: self.id@,
            name: self.name@,
            description: self.description@,
            capabilities: texts(self.capabilities@),
        }
    }
}

/// The entry of each resource of a list.
pub open spec fn entries(list: Seq<McpResource>) -> Seq<ResourceEntry> {
    list.map_values(|r: McpResource| r@)
}

/// The compiled-in catalog, in the order in which it is listed.
pub open spec fn catalog() -> Seq<ResourceEntry> {
    seq![
        ResourceEntry {
            id: "local-ai"@,
            name: "Local AI"@,
            description: "On-device AI inference"@,
            capabilities: seq!["text"@, "embedding"@],
        },
        ResourceEntry {
            id: "remote-ai"@,
            name: "Remote AI Service"@,
            description: "Cloud-based AI service"@,
            capabilities: seq!["text"@, "image"@, "embedding"@],
        },
        ResourceEntry {
            id: "file-system"@,
            name: "File System"@,
            description: "Local file system access"@,
            capabilities: seq!["read"@, "write"@],
        },
        ResourceEntry {
            id: "crm-data"@,
            name: "CRM Data"@,
            description: "Customer relationship data"@,
            capabilities: seq!["read"@, "query"@],
        },
    ]
}

/// Whether an id names a backend of the catalog.
pub open spec fn is_known(id: Seq<char>) -> bool {
    id == "local-ai"@ || id == "remote-ai"@ || id == "file-system"@ || id == "crm-data"@
}

/// Whether at least one of the listed resources can serve a query.
pub open spec fn serviceable(resources: Seq<String>) -> bool {
    exists|i: int| 0 <= i < resources.len() && is_known(#[trigger] resources[i]@)
}

/// The number of bytes that a text takes in UTF-8.
pub open spec fn byte_len(text: Seq<char>) -> nat {
    vstd::utf8::encode_utf8(text).len()
}

/// The units that every answer is charged for its completion.
pub const COMPLETION_TOKENS: usize = 50;

impl McpUsage {
    /// The total is the sum of the two parts.
    pub open spec fn balanced(self) -> bool {
        self.total_tokens == self.prompt_tokens + self.completion_tokens
    }

    /// The usage record of a prompt and a completion of the given sizes.
    pub fn new(prompt_tokens: usize, completion_tokens: usize) -> (usage: McpUsage)
        requires
            prompt_tokens + completion_tokens <= usize::MAX,
        ensures
            usage.prompt_tokens == prompt_tokens,
            usage.completion_tokens == completion_tokens,
            usage.balanced(),
    {
        McpUsage { prompt_tokens, completion_tokens, total_tokens: prompt_tokens + completion_tokens }
    }
}

/// Prepares the gateway. The catalog is compiled in, so nothing can fail.
pub fn init_mcp() -> (r: AppResult<()>)
    ensures
        r is Ok,
{
    Ok(())
}

fn tag_list(names: Vec<&'static str>) -> (tags: Vec<String>)
    ensures
        tags@.len() == names@.len(),
        forall|i: int| 0 <= i < names@.len() ==> (#[trigger] tags@[i])@ == names@[i]@,
{
    let mut tags: Vec<String> = Vec::new();
    let mut i: usize = 0;
    while i < names.len()
        invariant
            i <= names@.len(),
            tags@.len() == i,
            forall|j: int| 0 <= j < i ==> (#[trigger] tags@[j])@ == names@[j]@,
        decreases names@.len() - i,
    {
        tags.push(String::from_str(names[i]));
        i = i + 1;
    }
    tags
}

fn entry(id: &str, name: &str, description: &str, capabilities: Vec<String>) -> (r: McpResource)
    ensures
        r.id@ == id@,
        r.name@ == name@,
        r.description@ == description@,
        r.capabilities == capabilities,
{
    McpResource {
        id: String::from_str(id),
        name: String::from_str(name),
        description: String::from_str(description),
        capabilities,
    }
}

/// Lists the catalog: the four compiled-in backends, always in the same order.
pub fn get_mcp_resources() -> (r: AppResult<Vec<McpResource>>)
    ensures
        r matches Ok(list) && entries(list@) == catalog(),
{
    let local = entry("local-ai", "Local AI", "On-device AI inference", tag_list(vec!["text", "embedding"]));
    let remote = entry(
        "remote-ai",
        "Remote AI Service",
        "Cloud-based AI service",
        tag_list(vec!["text", "image", "embedding"]),
    );
    let files = entry("file-system", "File System", "Local file system access", tag_list(vec!["read", "write"]));
    let crm = entry("crm-data", "CRM Data", "Customer relationship data", tag_list(vec!["read", "query"]));
    proof {
        assert(texts(local.capabilities@) =~= seq!["text"@, "embedding"@]);
        assert(texts(remote.capabilities@) =~= seq!["text"@, "image"@, "embedding"@]);
        assert(texts(files.capabilities@) =~= seq!["read"@, "write"@]);
        assert(texts(crm.capabilities@) =~= seq!["read"@, "query"@]);
    }
    let list = vec![local, remote, files, crm];
    proof {
        assert(entries(list@) =~= catalog());
    }
    Ok(list)
}

fn known_id(id: &String) -> (known: bool)
    ensures
        known == is_known(id@),
{
    id.eq(&String::from_str("local-ai")) || id.eq(&String::from_str("remote-ai")) || id.eq(
        &String::from_str("file-system"),
    ) || id.eq(&String::from_str("crm-data"))
}

/// The cause that a refusal of an unknown id carries: it names the id.
pub open spec fn unknown_resource_text(id: Seq<char>) -> Seq<char> {
    "Unknown resource ID: "@ + id
}

/// Connects to a resource: `true` for an id of the catalog, and for any other
/// id a resource error that names it.
pub fn connect_mcp(resource_id: String) -> (r: AppResult<bool>)
    ensures
        is_known(resource_id@) ==> r == Ok::<bool, AppError>(true),
        !is_known(resource_id@) ==> (r matches Err(AppError::McpError(text)) && text@
            == unknown_resource_text(resource_id@)),
{
    if known_id(&resource_id) {
        Ok(true)
    } else {
        Err(AppError::McpError(String::from_str("Unknown resource ID: ").concat(resource_id.as_str())))
    }
}

fn any_known(resources: &Vec<String>) -> (found: bool)
    ensures
        found == serviceable(resources@),
{
    let mut i: usize = 0;
    while i < resources.len()
        invariant
            i <= resources@.len(),
            forall|j: int| 0 <= j < i ==> !is_known(#[trigger] resources@[j]@),
        decreases resources@.len() - i,
    {
        if known_id(&resources[i]) {
            return true;
        }
        i = i + 1;
    }
    false
}

/// The answer text for a query.
pub open spec fn answer_text(query: Seq<char>) -> Seq<char> {
    "Response to query: "@ + query
}

/// Submits a query. Some listed resource must be in the catalog; the answer
/// then charges the query's byte length as prompt, a fixed completion, and
/// their sum as total. With no known resource listed the query is refused
/// with a resource error.
pub fn query_mcp(request: McpRequest) -> (r: AppResult<McpResponse>)
    requires
        byte_len(request.query@) + COMPLETION_TOKENS <= usize::MAX,
    ensures
        serviceable(request.resources@) ==> (r matches Ok(answer) && answer.response@ == answer_text(
            request.query@,
        ) && answer.source@ == "mock-mcp-resource"@ && answer.usage.prompt_tokens == byte_len(
            request.query@,
        ) && answer.usage.completion_tokens == COMPLETION_TOKENS && answer.usage.balanced()),
        !serviceable(request.resources@) ==> (r matches Err(AppError::McpError(text)) && text@
            == "No listed resource can serve the query"@),
{
    if !any_known(&request.resources) {
        return Err(AppError::McpError(String::from_str("No listed resource can serve the query")));
    }
    let prompt_tokens: usize = request.query.as_str().len();
    let usage = McpUsage::new(prompt_tokens, COMPLETION_TOKENS);
    Ok(
        McpResponse {
            response: String::from_str("Response to query: ").concat(request.query.as_str()),
            source: String::from_str("mock-mcp-resource"),
            usage,
        },
    )
}

/// An id is known exactly when the catalog lists it.
pub proof fn known_iff_listed(id: Seq<char>)
    ensures
        is_known(id) <==> exists|i: int| 0 <= i < catalog().len() && #[trigger] catalog()[i].id == id,
{
    let c = catalog();
    assert(c.len() == 4);
    assert(c[0].id == "local-ai"@);
    assert(c[1].id == "remote-ai"@);
    assert(c[2].id == "file-system"@);
    assert(c[3].id == "crm-data"@);
}

/// No two entries of the catalog share an id.
pub proof fn catalog_ids_unique(i: int, j: int)
    requires
        0 <= i < catalog().len(),
        0 <= j < catalog().len(),
        i != j,
    ensures
        catalog()[i].id != catalog()[j].id,
{
    reveal_strlit("local-ai");
    reveal_strlit("remote-ai");
    reveal_strlit("file-system");
    reveal_strlit("crm-data");
    let c = catalog();
    assert(c.len() == 4);
    assert(c[0].id == "local-ai"@);
    assert(c[1].id == "remote-ai"@);
    assert(c[2].id == "file-system"@);
    assert(c[3].id == "crm-data"@);
    assert("local-ai"@[0] == 'l');
    assert("crm-data"@[0] == 'c');
}

} // verus!
