//! A look at source text: calls that generate something name a budget of their own.
use acosmi::client::transport::DEFAULT_JSON_TIMEOUT_MS;

const DEFAULT_TIMEOUT_ALLOWLIST: &[(&str, &str)] = &[
    ("do_json_full", "the wrapper of all calls that generate nothing"),
    ("poll_video_task", "asks for the state of a task"),
    ("billing_post_body", "writes orders and quotas"),
    ("notify_void", "marks as read, subscribes"),
    ("ws_connect_once", "asks for a ticket"),
];

const INFERENCE_PATH_MARKERS: &[&str] =
    &["/skill-generator/", "/videos/generations", "/images/generations", "/embeddings", "/rerank"];

fn fn_name_of_line(line: &str) -> Option<&str> {
    let t = line.trim_start();
    let t = t.strip_prefix("pub(crate) ").or_else(|| t.strip_prefix("pub ")).unwrap_or(t);
    let t = t.strip_prefix("async ").unwrap_or(t);
    let t = t.strip_prefix("fn ")?;
    let name = t.split(|c: char| !(c.is_alphanumeric() || c == '_')).next().unwrap_or("");
    if name.is_empty() {
        None
    } else {
        Some(name)
    }
}

fn balanced_args(src: &str, start: usize) -> &str {
    let open = start + src[start..].find('(').expect("a call has an opening bracket");
    let bytes = src.as_bytes();
    let mut depth = 0usize;
    for i in open..bytes.len() {
        match bytes[i] {
            b'(' => depth += 1,
            b')' => {
                depth -= 1;
                if depth == 0 {
                    return &src[open..=i];
                }
            }
            _ => {}
        }
    }
    panic!("the brackets of a call do not balance");
}

fn audit(src: &str, origin: &str) -> (usize, Vec<String>) {
    let needle = format!(".do_json{}", "_full_raw(");
    let mut current_fn = String::new();
    let mut offset = 0usize;
    let mut seen = 0usize;
    let mut bad = Vec::new();
    let normalized = src.replace("\r\n", "\n");
    for line in normalized.split('\n') {
        if let Some(name) = fn_name_of_line(line) {
            current_fn = name.to_string();
        }
        if let Some(rel) = line.find(&needle) {
            seen += 1;
            let args = balanced_args(&normalized, offset + rel);
            let uses_default = args.contains("DEFAULT_JSON_TIMEOUT_MS");
            let uses_chat = args.contains("CHAT_REQUEST_TIMEOUT_MS");
            let uses_param = args.contains("timeout_ms");
            if !uses_default && !uses_chat && !uses_param {
                bad.push(format!("{origin}::{current_fn} names no budget"));
            } else if uses_default
                && !DEFAULT_TIMEOUT_ALLOWLIST.iter().any(|(n, _)| *n == current_fn)
            {
                bad.push(format!("{origin}::{current_fn} takes the default budget"));
            }
        }
        offset += line.len() + 1;
    }
    (seen, bad)
}

fn audit_by_endpoint(src: &str, origin: &str) -> (usize, Vec<String>) {
    let normalized = src.replace("\r\n", "\n");
    let lines: Vec<&str> = normalized.split('\n').collect();
    let mut fn_starts: Vec<(usize, String)> = Vec::new();
    for (i, line) in lines.iter().enumerate() {
        if let Some(name) = fn_name_of_line(line) {
            fn_starts.push((i, name.to_string()));
        }
    }
    let mut seen = 0usize;
    let mut bad = Vec::new();
    for (i, line) in lines.iter().enumerate() {
        if !INFERENCE_PATH_MARKERS.iter().any(|m| line.contains(m)) {
            continue;
        }
        if line.trim_start().starts_with("//") || !line.contains('"') {
            continue;
        }
        seen += 1;
        let Some(pos) = fn_starts.iter().rposition(|(start, _)| *start <= i) else {
            continue;
        };
        let (start, name) = &fn_starts[pos];
        let end = fn_starts.get(pos + 1).map(|(s, _)| *s).unwrap_or(lines.len());
        let body = lines[*start..end].join("\n");
        if !body.contains("CHAT_REQUEST_TIMEOUT_MS") {
            bad.push(format!("{origin}::{name} generates without a budget of its own"));
        }
    }
    (seen, bad)
}

#[test]
fn default_budget_is_half_a_minute() {
    assert_eq!(DEFAULT_JSON_TIMEOUT_MS, 30_000);
}

#[test]
fn endpoint_gate_catches_generation_routed_through_a_control_plane_wrapper() {
    let synthetic = [
        "    pub async fn generate_skill(\n",
        "        &self,\n",
        "    ) -> Result<()> {\n",
        "        self.billing_post_body(\"/skill-generator/generate\", Some(&body), signal)\n",
        "            .await\n",
        "    }\n",
    ]
    .concat();
    let (seen, bad) = audit_by_endpoint(&synthetic, "synthetic.rs");
    assert_eq!(seen, 1);
    assert_eq!(bad.len(), 1, "{bad:?}");
    assert!(bad[0].contains("generate_skill"), "{}", bad[0]);
}

#[test]
fn gate_catches_a_generation_endpoint_that_inherits_the_default() {
    let synthetic = [
        "    pub async fn generate_music(\n",
        "        &self,\n",
        "    ) -> Result<()> {\n",
        "        let x = self\n",
        "            .do_json_full_raw(\n",
        "                reqwest::Method::POST,\n",
        "                &endpoint,\n",
        "                Some(&body),\n",
        "                signal,\n",
        "                DEFAULT_JSON_TIMEOUT_MS,\n",
        "            )\n",
        "            .await?;\n",
        "    }\n",
    ]
    .concat();
    let (seen, bad) = audit(&synthetic, "synthetic.rs");
    assert_eq!(seen, 1);
    assert_eq!(bad.len(), 1, "{bad:?}");
    assert!(bad[0].contains("generate_music"), "{}", bad[0]);
}

#[test]
fn gate_accepts_an_allowlisted_control_plane_call() {
    let synthetic = [
        "    pub async fn poll_video_task(\n",
        "        .do_json_full_raw(m, p, b, s, DEFAULT_JSON_TIMEOUT_MS)\n",
    ]
    .concat();
    let (seen, bad) = audit(&synthetic, "synthetic.rs");
    assert_eq!(seen, 1);
    assert!(bad.is_empty(), "{bad:?}");
}

#[test]
fn gate_accepts_a_call_that_forwards_a_timeout_parameter() {
    let synthetic = [
        "    pub(crate) async fn billing_post_body_with_timeout(\n",
        "        .do_json_full_raw(m, p, b, s, timeout_ms)\n",
    ]
    .concat();
    let (seen, bad) = audit(&synthetic, "synthetic.rs");
    assert_eq!(seen, 1);
    assert!(bad.is_empty(), "{bad:?}");
}
