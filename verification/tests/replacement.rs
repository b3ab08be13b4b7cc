use std::collections::BTreeMap;
use webpage_app::address::validate_url;
use webpage_app::naming::join_path;
use webpage_app::scaffold::{scaffold_plan, ScaffoldConfig, ScaffoldPlan};

fn lies_below(root: &str, path: &str) -> bool {
    path.len() > root.len()
        && path.starts_with(root)
        && (root.is_empty() || root.ends_with('/') || path[root.len()..].starts_with('/'))
}

fn carry_out(tree: &mut BTreeMap<String, String>, plan: &ScaffoldPlan) {
    tree.retain(|path, _| !lies_below(&plan.root, path));
    for file in &plan.files {
        tree.insert(join_path(&plan.root, &file.path), file.content.clone());
    }
}

fn below(tree: &BTreeMap<String, String>, root: &str) -> BTreeMap<String, String> {
    tree.iter()
        .filter(|(path, _)| lies_below(root, path))
        .map(|(path, text)| (path.clone(), text.clone()))
        .collect()
}

fn plan_for(address: &str) -> ScaffoldPlan {
    let config = ScaffoldConfig { base_output_dir: "/out".to_string() };
    scaffold_plan(&config, &validate_url(address).unwrap())
}

#[test]
fn same_url_gives_the_same_plan() {
    assert_eq!(plan_for("https://example.com/page"), plan_for("https://example.com/page"));
}

#[test]
fn scaffolding_twice_leaves_the_same_tree() {
    let plan = plan_for("https://example.com/page");
    let mut tree = BTreeMap::new();
    tree.insert("/out/example-com-app/stale.txt".to_string(), "old".to_string());
    tree.insert("/out/example-com-app/src-tauri/Cargo.toml".to_string(), "old".to_string());
    tree.insert("/out/other-app/keep.txt".to_string(), "kept".to_string());
    tree.insert("/out/example-com-apple".to_string(), "kept too".to_string());
    carry_out(&mut tree, &plan);
    let once = tree.clone();
    carry_out(&mut tree, &plan);
    assert_eq!(tree, once);
}

#[test]
fn scaffolding_replaces_what_was_there() {
    let plan = plan_for("https://example.com/page");
    let mut dirty = BTreeMap::new();
    dirty.insert("/out/example-com-app/stale.txt".to_string(), "old".to_string());
    dirty.insert("/out/example-com-app/dist/index.html".to_string(), "old".to_string());
    let mut clean = BTreeMap::new();
    carry_out(&mut dirty, &plan);
    carry_out(&mut clean, &plan);
    assert_eq!(below(&dirty, &plan.root), below(&clean, &plan.root));
    assert_eq!(below(&dirty, &plan.root).len(), 7);
    assert!(!dirty.contains_key("/out/example-com-app/stale.txt"));
    for file in &plan.files {
        let path = format!("/out/example-com-app/{}", file.path);
        assert_eq!(dirty.get(&path), Some(&file.content));
    }
}

#[test]
fn scaffolding_leaves_the_rest_alone() {
    let plan = plan_for("https://example.com/page");
    let mut tree = BTreeMap::new();
    tree.insert("/out/other-app/keep.txt".to_string(), "kept".to_string());
    tree.insert("/out/example-com-apple".to_string(), "kept too".to_string());
    tree.insert("/elsewhere".to_string(), "kept as well".to_string());
    carry_out(&mut tree, &plan);
    assert_eq!(tree.get("/out/other-app/keep.txt"), Some(&"kept".to_string()));
    assert_eq!(tree.get("/out/example-com-apple"), Some(&"kept too".to_string()));
    assert_eq!(tree.get("/elsewhere"), Some(&"kept as well".to_string()));
    assert_eq!(tree.len(), 10);
}
