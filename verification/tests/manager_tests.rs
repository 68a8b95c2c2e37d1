use generator::adapter::{InMemoryAdapter, InMemoryPackage, InMemoryRoot, ResolvedTemplate};
use generator::error::GeneratorError;
use generator::manager::TemplateManager;
use generator::metadata::TemplateMetadata;
use generator::registry::{TemplateRegistry, TemplateRegistryConfig, TemplateSource};

fn meta(name: &str, project_type: &str) -> TemplateMetadata {
    TemplateMetadata {
        name: name.to_string(),
        version: "1.0.0".to_string(),
        description: format!("{} template", name),
        author: "tests".to_string(),
        project_type: project_type.to_string(),
        variables: Vec::new(),
        dependencies: Vec::new(),
        tags: Vec::new(),
    }
}

fn resolved(name: &str, project_type: &str, path: &str) -> ResolvedTemplate {
    ResolvedTemplate { path: path.to_string(), metadata: meta(name, project_type) }
}

fn local_entry(name: &str, path: &str, enabled: bool, priority: u32) -> TemplateRegistry {
    TemplateRegistry {
        name: name.to_string(),
        source: TemplateSource::Local { path: path.to_string() },
        enabled,
        priority,
    }
}

fn config(entries: Vec<TemplateRegistry>, ttl: u64) -> TemplateRegistryConfig {
    TemplateRegistryConfig { registries: entries, cache_dir: "./.template_cache".to_string(), cache_ttl: ttl }
}

fn adapter_with_root(path: &str, templates: Vec<ResolvedTemplate>) -> InMemoryAdapter {
    let mut a = InMemoryAdapter::new();
    a.roots.push(InMemoryRoot { path: path.to_string(), templates });
    a
}

#[test]
fn resolve_local_template_succeeds() {
    let adapter = adapter_with_root(
        "./templates",
        vec![resolved("basic", "vue", "/cache/vue-basic")],
    );
    let cfg = config(vec![local_entry("local", "./templates", true, 0)], 3600);
    let mut manager = TemplateManager::new(cfg, adapter);
    let got = manager.resolve("vue", "basic", 100).expect("template must resolve");
    assert_eq!(got.path, "/cache/vue-basic");
    assert_eq!(got.metadata.name, "basic");
    assert_eq!(got.metadata.project_type, "vue");
}

#[test]
fn cache_hit_within_ttl_does_not_invoke_adapter() {
    let adapter = adapter_with_root(
        "./templates",
        vec![resolved("basic", "vue", "/cache/vue-basic")],
    );
    let cfg = config(vec![local_entry("local", "./templates", true, 0)], 3600);
    let mut manager = TemplateManager::new(cfg, adapter);
    let first = manager.resolve("vue", "basic", 100).expect("first resolution");
    assert_eq!(manager.adapter.fetch_calls, 1);
    let second = manager.resolve("vue", "basic", 200).expect("second resolution");
    assert_eq!(second.path, first.path);
    assert_eq!(manager.adapter.fetch_calls, 1, "cache hit must not consult the adapter");
    assert!(manager.attempts.is_empty(), "a cache hit records no attempts");
}

#[test]
fn cache_expiry_reinvokes_adapter() {
    let adapter = adapter_with_root(
        "./templates",
        vec![resolved("basic", "vue", "/cache/vue-basic")],
    );
    let cfg = config(vec![local_entry("local", "./templates", true, 0)], 50);
    let mut manager = TemplateManager::new(cfg, adapter);
    manager.resolve("vue", "basic", 100).expect("first resolution");
    assert_eq!(manager.adapter.fetch_calls, 1);
    // at 150 the entry (cached at 100, ttl 50) is still fresh
    manager.resolve("vue", "basic", 150).expect("fresh resolution");
    assert_eq!(manager.adapter.fetch_calls, 1);
    // one second later it is stale and the adapter is consulted again
    manager.resolve("vue", "basic", 151).expect("re-resolution");
    assert_eq!(manager.adapter.fetch_calls, 2);
}

#[test]
fn priority_order_tries_lower_number_first() {
    let adapter = adapter_with_root(
        "./good",
        vec![resolved("basic", "vue", "/cache/good")],
    );
    // the succeeding entry is listed first in the configuration but has
    // the larger priority number, so the failing one must be tried first
    let cfg = config(
        vec![
            local_entry("succeeds", "./good", true, 1),
            local_entry("fails", "./missing", true, 0),
        ],
        3600,
    );
    let mut manager = TemplateManager::new(cfg, adapter);
    let got = manager.resolve("vue", "basic", 100).expect("resolution");
    assert_eq!(got.path, "/cache/good");
    assert_eq!(manager.attempts.len(), 2);
    assert_eq!(manager.attempts[0].registry_name, "fails");
    assert!(!manager.attempts[0].succeeded);
    assert_eq!(manager.attempts[1].registry_name, "succeeds");
    assert!(manager.attempts[1].succeeded);
}

#[test]
fn disabled_entry_is_never_consulted() {
    let mut adapter = adapter_with_root(
        "./disabled",
        vec![resolved("basic", "vue", "/cache/disabled")],
    );
    adapter.roots.push(InMemoryRoot {
        path: "./enabled".to_string(),
        templates: vec![resolved("basic", "vue", "/cache/enabled")],
    });
    let cfg = config(
        vec![
            local_entry("off", "./disabled", false, 0),
            local_entry("on", "./enabled", true, 1),
        ],
        3600,
    );
    let mut manager = TemplateManager::new(cfg, adapter);
    let got = manager.resolve("vue", "basic", 100).expect("resolution");
    assert_eq!(got.path, "/cache/enabled", "the disabled entry must not win");
    assert_eq!(manager.attempts.len(), 1);
    assert_eq!(manager.attempts[0].registry_name, "on");
}

#[test]
fn list_templates_filters_by_type_preserving_order() {
    let adapter = adapter_with_root(
        "./templates",
        vec![
            resolved("alpha", "vue", "/cache/a"),
            resolved("beta", "react", "/cache/b"),
            resolved("gamma", "vue", "/cache/c"),
        ],
    );
    let cfg = config(vec![local_entry("local", "./templates", true, 0)], 3600);
    let mut manager = TemplateManager::new(cfg, adapter);
    let listed = manager.list_templates(Some("vue")).expect("listing");
    let names: Vec<&str> = listed.iter().map(|m| m.name.as_str()).collect();
    assert_eq!(names, vec!["alpha", "gamma"]);
    assert!(listed.iter().all(|m| m.project_type == "vue"));
}

#[test]
fn list_templates_without_filter_returns_everything() {
    let adapter = adapter_with_root(
        "./templates",
        vec![
            resolved("alpha", "vue", "/cache/a"),
            resolved("beta", "react", "/cache/b"),
        ],
    );
    let cfg = config(vec![local_entry("local", "./templates", true, 0)], 3600);
    let mut manager = TemplateManager::new(cfg, adapter);
    let listed = manager.list_templates(None).expect("listing");
    assert_eq!(listed.len(), 2);
}

#[test]
fn listing_tolerates_unreachable_git_source() {
    let adapter = adapter_with_root(
        "./templates",
        vec![resolved("basic", "vue", "/cache/a")],
    );
    let git = TemplateRegistry {
        name: "git".to_string(),
        source: TemplateSource::Git {
            url: "https://example.invalid/repo.git".to_string(),
            branch: None,
            subfolder: None,
            auth: None,
        },
        enabled: true,
        priority: 0,
    };
    let cfg = config(vec![git, local_entry("local", "./templates", true, 1)], 3600);
    let mut manager = TemplateManager::new(cfg, adapter);
    let listed = manager.list_templates(None).expect("partial results are success");
    assert_eq!(listed.len(), 1);
    assert_eq!(listed[0].name, "basic");
    assert_eq!(manager.attempts.len(), 2);
    assert!(!manager.attempts[0].succeeded);
    assert!(manager.attempts[1].succeeded);
}

#[test]
fn checksum_mismatch_yields_integrity_error_and_is_not_cached() {
    let mut adapter = InMemoryAdapter::new();
    adapter.packages.push(InMemoryPackage {
        url: "https://example.invalid/pkg.tar".to_string(),
        checksum: "cafe".to_string(),
        templates: vec![resolved("basic", "vue", "/cache/pkg")],
    });
    let http = TemplateRegistry {
        name: "http".to_string(),
        source: TemplateSource::Http {
            url: "https://example.invalid/pkg.tar".to_string(),
            checksum: Some("deadbeef".to_string()),
            auth: None,
        },
        enabled: true,
        priority: 0,
    };
    let cfg = config(vec![http], 3600);
    let mut manager = TemplateManager::new(cfg, adapter);
    let err = manager.resolve("vue", "basic", 100).expect_err("mismatch must fail");
    assert!(matches!(err, GeneratorError::IntegrityError(_)));
    // nothing was cached: resolving again consults the adapter again
    let err2 = manager.resolve("vue", "basic", 101).expect_err("still failing");
    assert!(matches!(err2, GeneratorError::IntegrityError(_)));
    assert_eq!(manager.adapter.fetch_calls, 2);
}

#[test]
fn matching_checksum_resolves() {
    let mut adapter = InMemoryAdapter::new();
    adapter.packages.push(InMemoryPackage {
        url: "https://example.invalid/pkg.tar".to_string(),
        checksum: "cafe".to_string(),
        templates: vec![resolved("basic", "vue", "/cache/pkg")],
    });
    let http = TemplateRegistry {
        name: "http".to_string(),
        source: TemplateSource::Http {
            url: "https://example.invalid/pkg.tar".to_string(),
            checksum: Some("cafe".to_string()),
            auth: None,
        },
        enabled: true,
        priority: 0,
    };
    let cfg = config(vec![http], 3600);
    let mut manager = TemplateManager::new(cfg, adapter);
    let got = manager.resolve("vue", "basic", 100).expect("matching checksum resolves");
    assert_eq!(got.path, "/cache/pkg");
}

#[test]
fn exhausted_sources_report_composite_key() {
    let cfg = config(Vec::new(), 3600);
    let mut manager = TemplateManager::new(cfg, InMemoryAdapter::new());
    let err = manager.resolve("vue", "missing", 100).expect_err("no sources");
    match err {
        GeneratorError::TemplateNotFound(key) => assert_eq!(key, "vue:missing"),
        other => panic!("unexpected error: {:?}", other),
    }
}

#[test]
fn get_template_returns_path_only() {
    let adapter = adapter_with_root(
        "./templates",
        vec![resolved("basic", "vue", "/cache/vue-basic")],
    );
    let cfg = config(vec![local_entry("local", "./templates", true, 0)], 3600);
    let mut manager = TemplateManager::new(cfg, adapter);
    let path = manager.get_template("vue", "basic", 100).expect("path");
    assert_eq!(path, "/cache/vue-basic");
}

#[test]
fn is_cache_expired_boundaries() {
    let cfg = config(Vec::new(), 50);
    let manager = TemplateManager::new(cfg, InMemoryAdapter::new());
    let cached = generator::cache::CachedTemplate {
        metadata: meta("basic", "vue"),
        path: "/cache/x".to_string(),
        cached_at: 100,
    };
    assert!(!manager.is_cache_expired(&cached, 100));
    assert!(!manager.is_cache_expired(&cached, 150), "age equal to the ttl is still fresh");
    assert!(manager.is_cache_expired(&cached, 151));
    assert!(manager.is_cache_expired(&cached, 99), "clock regression counts as expired");
}

#[test]
fn cache_store_overwrites_and_expires() {
    let mut store = generator::cache::CacheStore::new();
    store.put(
        "vue:basic".to_string(),
        generator::cache::CachedTemplate {
            metadata: meta("basic", "vue"),
            path: "/cache/old".to_string(),
            cached_at: 100,
        },
    );
    assert!(store.get("vue:basic", 50, 120).is_some());
    assert!(store.get("vue:basic", 50, 151).is_none(), "stale entries read as absent");
    assert!(store.get("vue:basic", 50, 99).is_none(), "clock regression reads as absent");
    assert!(store.get("react:basic", 50, 120).is_none());
    store.put(
        "vue:basic".to_string(),
        generator::cache::CachedTemplate {
            metadata: meta("basic", "vue"),
            path: "/cache/new".to_string(),
            cached_at: 200,
        },
    );
    let c = store.get("vue:basic", 50, 210).expect("replaced entry");
    assert_eq!(c.path, "/cache/new");
}

#[test]
fn validate_rejects_duplicate_names() {
    let cfg = config(
        vec![
            local_entry("same", "./a", true, 0),
            local_entry("same", "./b", true, 1),
        ],
        3600,
    );
    let err = cfg.validate().expect_err("duplicate names are invalid");
    assert!(matches!(err, GeneratorError::Configuration(_)));

    let ok = config(
        vec![
            local_entry("one", "./a", true, 0),
            local_entry("two", "./b", true, 1),
        ],
        3600,
    );
    assert!(ok.validate().is_ok());
}

#[test]
fn default_config_has_single_local_entry() {
    let cfg = TemplateRegistryConfig::default();
    assert_eq!(cfg.registries.len(), 1);
    assert_eq!(cfg.registries[0].name, "local");
    assert!(cfg.registries[0].enabled);
    assert_eq!(cfg.registries[0].priority, 0);
    match &cfg.registries[0].source {
        TemplateSource::Local { path } => assert_eq!(path, "./templates"),
        other => panic!("unexpected source: {:?}", other),
    }
    assert_eq!(cfg.cache_dir, "./.template_cache");
    assert_eq!(cfg.cache_ttl, 3600);
}
