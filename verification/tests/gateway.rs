use messaging_core::error::AppError;
use messaging_core::mcp::{
    connect_mcp, get_mcp_resources, init_mcp, query_mcp, McpRequest, McpUsage, COMPLETION_TOKENS,
};

fn request(query: &str, resources: &[&str]) -> McpRequest {
    McpRequest {
        query: query.to_string(),
        context: None,
        resources: resources.iter().map(|r| r.to_string()).collect(),
    }
}

#[test]
fn gateway_initializes() {
    assert_eq!(init_mcp(), Ok(()));
}

#[test]
fn connect_to_local_ai_succeeds() {
    assert_eq!(connect_mcp("local-ai".to_string()), Ok(true));
}

#[test]
fn connect_to_every_catalog_entry_succeeds() {
    for resource in get_mcp_resources().unwrap() {
        assert_eq!(connect_mcp(resource.id.clone()), Ok(true));
    }
}

#[test]
fn connect_to_unknown_resource_names_it() {
    assert_eq!(
        connect_mcp("nonexistent".to_string()),
        Err(AppError::McpError("Unknown resource ID: nonexistent".to_string()))
    );
}

#[test]
fn connect_is_case_sensitive_and_exact() {
    assert!(connect_mcp("Local-AI".to_string()).is_err());
    assert!(connect_mcp("local-ai ".to_string()).is_err());
    assert!(connect_mcp(String::new()).is_err());
}

#[test]
fn catalog_lists_four_resources_in_order() {
    let list = get_mcp_resources().unwrap();
    let ids: Vec<&str> = list.iter().map(|r| r.id.as_str()).collect();
    assert_eq!(ids, vec!["local-ai", "remote-ai", "file-system", "crm-data"]);
    assert_eq!(list[0].name, "Local AI");
    assert_eq!(list[0].description, "On-device AI inference");
    assert_eq!(list[0].capabilities, vec!["text".to_string(), "embedding".to_string()]);
    assert_eq!(list[1].name, "Remote AI Service");
    assert_eq!(list[1].description, "Cloud-based AI service");
    assert_eq!(
        list[1].capabilities,
        vec!["text".to_string(), "image".to_string(), "embedding".to_string()]
    );
    assert_eq!(list[2].name, "File System");
    assert_eq!(list[2].description, "Local file system access");
    assert_eq!(list[2].capabilities, vec!["read".to_string(), "write".to_string()]);
    assert_eq!(list[3].name, "CRM Data");
    assert_eq!(list[3].description, "Customer relationship data");
    assert_eq!(list[3].capabilities, vec!["read".to_string(), "query".to_string()]);
}

#[test]
fn catalog_is_the_same_on_every_call() {
    assert_eq!(get_mcp_resources(), get_mcp_resources());
}

#[test]
fn catalog_ids_are_distinct() {
    let list = get_mcp_resources().unwrap();
    for i in 0..list.len() {
        for j in 0..list.len() {
            if i != j {
                assert_ne!(list[i].id, list[j].id);
            }
        }
    }
}

#[test]
fn query_answers_with_usage() {
    let answer = query_mcp(request("hello", &["local-ai"])).unwrap();
    assert_eq!(answer.response, "Response to query: hello");
    assert_eq!(answer.source, "mock-mcp-resource");
    assert_eq!(answer.usage, McpUsage { prompt_tokens: 5, completion_tokens: 50, total_tokens: 55 });
}

#[test]
fn query_usage_total_is_the_sum() {
    for query in ["", "a", "what is the weather", "λx.x"] {
        let usage = query_mcp(request(query, &["crm-data"])).unwrap().usage;
        assert_eq!(usage.total_tokens, usage.prompt_tokens + usage.completion_tokens);
        assert_eq!(usage.completion_tokens, COMPLETION_TOKENS);
    }
}

#[test]
fn query_prompt_counts_bytes() {
    let usage = query_mcp(request("λx", &["remote-ai"])).unwrap().usage;
    assert_eq!(usage.prompt_tokens, 3);
    assert_eq!(usage.total_tokens, 53);
}

#[test]
fn query_with_empty_query_charges_only_the_completion() {
    let answer = query_mcp(request("", &["file-system"])).unwrap();
    assert_eq!(answer.response, "Response to query: ");
    assert_eq!(answer.usage, McpUsage { prompt_tokens: 0, completion_tokens: 50, total_tokens: 50 });
}

#[test]
fn query_without_resources_is_refused() {
    assert_eq!(
        query_mcp(request("hello", &[])),
        Err(AppError::McpError("No listed resource can serve the query".to_string()))
    );
}

#[test]
fn query_with_only_unknown_resources_is_refused() {
    assert_eq!(
        query_mcp(request("hello", &["nonexistent", "other"])),
        Err(AppError::McpError("No listed resource can serve the query".to_string()))
    );
}

#[test]
fn query_is_served_when_one_listed_resource_is_known() {
    let answer = query_mcp(request("hi", &["nonexistent", "crm-data"])).unwrap();
    assert_eq!(answer.usage.total_tokens, 52);
}

#[test]
fn query_keeps_nothing_of_the_context() {
    let mut with_context = request("hello", &["local-ai"]);
    with_context.context = Some("earlier talk".to_string());
    assert_eq!(query_mcp(with_context), query_mcp(request("hello", &["local-ai"])));
}

#[test]
fn usage_record_is_balanced() {
    assert_eq!(McpUsage::new(7, 50), McpUsage { prompt_tokens: 7, completion_tokens: 50, total_tokens: 57 });
    assert_eq!(McpUsage::new(0, 0).total_tokens, 0);
}
