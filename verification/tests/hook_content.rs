use wgit::hook::{build_hook_payload, updated_hook_content};

fn payload(main: &str, dev: &str) -> String {
    build_hook_payload(main, dev)
}

#[test]
fn hook_payload_names_both_branches() {
    let p = payload("main", "develop");
    assert!(p.starts_with("# --- WGIT-HOOK-BEGIN ---\n"));
    assert!(p.ends_with("# --- WGIT-HOOK-END ---"));
    assert!(p.contains("[ \"$branch\" = \"main\" ]"));
    assert!(p.contains("[ \"$branch\" = \"develop\" ]"));
    assert!(p.contains("exit 1"));
}

#[test]
fn hook_installed_into_empty_file_gets_shebang() {
    let r = updated_hook_content("", "main", "develop");
    assert_eq!(r, format!("#!/bin/sh\n\n{}", payload("main", "develop")));
}

#[test]
fn hook_appended_to_existing_unmanaged_file() {
    let existing = "#!/bin/sh\necho hi\n";
    let r = updated_hook_content(existing, "main", "develop");
    assert_eq!(r, format!("{}\n\n{}", existing, payload("main", "develop")));
}

#[test]
fn hook_managed_section_is_replaced_in_place() {
    let before = format!(
        "#!/bin/sh\necho first\n{}\necho last\n",
        payload("main", "develop")
    );
    let r = updated_hook_content(&before, "trunk", "dev");
    assert_eq!(
        r,
        format!(
            "#!/bin/sh\necho first\n{}\necho last\n",
            payload("trunk", "dev")
        )
    );
}

#[test]
fn hook_replacement_is_idempotent() {
    let once = updated_hook_content("#!/bin/sh\n", "main", "develop");
    let twice = updated_hook_content(&once, "main", "develop");
    assert_eq!(once, twice);
}
