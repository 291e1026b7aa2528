use std::collections::HashMap;
use std::sync::Arc;

use gemini_client::{GeminiClient, Part};

type Handler = Box<dyn Fn(HashMap<String, String>) -> Result<String, String> + Send + Sync>;

fn client() -> GeminiClient<Handler> {
    GeminiClient::<Handler>::builder()
        .client(reqwest::Client::new())
        .project_id("p".to_string())
        .model("m".to_string())
        .location("l".to_string())
        .api_key("k".to_string())
        .build()
        .expect("all fields are set")
}

#[test]
fn concurrent_registration_of_distinct_names() {
    let runtime = tokio::runtime::Builder::new_multi_thread()
        .worker_threads(4)
        .build()
        .expect("a runtime");
    let shared = Arc::new(client());
    let count: usize = 32;
    runtime.block_on(async {
        let mut tasks = Vec::new();
        for i in 0..count {
            let c = Arc::clone(&shared);
            tasks.push(tokio::spawn(async move {
                let name = format!("tool_{}", i);
                let reply = format!("ran {}", i);
                let handler: Handler = Box::new(move |_a: HashMap<String, String>| Ok(reply.clone()));
                c.functions().lock().await.register(name, handler);
            }));
        }
        for t in tasks {
            t.await.expect("task finished");
        }
    });
    let registry = shared.functions().try_lock().expect("nobody holds the lock");
    assert_eq!(registry.len(), count);
    for i in 0..count {
        let call = Part::FunctionCall { name: format!("tool_{}", i), args: HashMap::new() };
        assert_eq!(registry.dispatch(&call), Ok(format!("ran {}", i)));
    }
}

#[test]
fn concurrent_registration_of_one_name_keeps_one_entry() {
    let runtime = tokio::runtime::Builder::new_multi_thread()
        .worker_threads(4)
        .build()
        .expect("a runtime");
    let shared = Arc::new(client());
    runtime.block_on(async {
        let mut tasks = Vec::new();
        for i in 0..16 {
            let c = Arc::clone(&shared);
            tasks.push(tokio::spawn(async move {
                let reply = format!("writer {}", i);
                let handler: Handler = Box::new(move |_a: HashMap<String, String>| Ok(reply.clone()));
                c.functions().lock().await.register("shared".to_string(), handler);
            }));
        }
        for t in tasks {
            t.await.expect("task finished");
        }
    });
    let registry = shared.functions().try_lock().expect("nobody holds the lock");
    assert_eq!(registry.len(), 1);
    let call = Part::FunctionCall { name: "shared".to_string(), args: HashMap::new() };
    let out = registry.dispatch(&call).expect("one writer won");
    assert!(out.starts_with("writer "));
}
