use mj_tui::drafts::{MountWizard, WizardControl};
use mj_tui::form_screens::{bundle_layout, directory_layout, labelled_row, recent_area};
use mj_tui::geometry::Rect;
use mj_tui::mounts::{access_choices, access_description, access_index, access_marker};
use mj_tui::paths::{join_path, last_name, paths_match};
use mj_tui::records::{
    AdditionalMount, MountAccess, ResourceAllocation, Target, TargetKind, TargetTemplate,
};
use mj_tui::resources::{clamp_resources, preferred_aws_option, resource_allocation_label};

fn target(kind: TargetKind) -> Target {
    Target {
        id: "box".into(),
        template: TargetTemplate {
            kind,
            bare_project: false,
            guardian: false,
            ssh_user: "ubuntu".into(),
            mount_host: Some("local".into()),
            project_host: None,
            size_host: None,
            settings: String::new(),
        },
    }
}

fn attached(source: &str, access: MountAccess) -> AdditionalMount {
    AdditionalMount { source: source.into(), destination: format!("/mnt{source}"), access }
}

#[test]
fn the_attachment_editor_lists_what_is_attached_and_remembered() {
    let mut mounts = MountWizard::with_mounts(
        vec!["/srv/a".into(), "/srv/b".into()],
        vec![attached("/opt", MountAccess::Cow)],
    );
    mounts.error = Some("no such directory".into());
    let screen = mounts.render_mount_wizard(
        &target(TargetKind::LocalPodman),
        Some(WizardControl::MountSource),
    );
    let lines: Vec<String> = screen
        .lines
        .iter()
        .map(|line| line.spans.iter().map(|span| span.text.as_str()).collect())
        .collect();
    assert_eq!(lines[0], "Target: box (local Podman)");
    assert!(lines.contains(&"  /opt → /mnt/opt · cow".to_string()), "{lines:?}");
    assert!(lines.contains(&"› /srv/a".to_string()), "{lines:?}");
    assert!(lines.contains(&"  /srv/b".to_string()), "{lines:?}");
    assert!(lines.contains(&"no such directory".to_string()), "{lines:?}");
    assert_eq!(usize::from(screen.info_height), lines.len());
    assert_eq!(screen.focused_row, Some(screen.info_height));
    assert_eq!(screen.total_height, screen.info_height + 3);
    assert!(!screen.access.expanded);
    assert_eq!(screen.access.value, "ro · read-only");
}

#[test]
fn the_rows_of_a_form_are_labelled() {
    let (label, field) = labelled_row(Rect::new(2, 5, 40, 1), 60);
    assert_eq!(label, Rect::new(2, 5, 10, 1));
    assert_eq!(field, Rect::new(12, 5, 48, 1));
}

#[test]
fn the_project_directory_leaves_room_for_the_buttons() {
    let content = Rect::new(3, 2, 60, 14);
    let areas = directory_layout(content);
    assert!(areas.intro.y < areas.field.y);
    assert!(areas.field.y < areas.details.y);
    assert!(areas.details.y + areas.details.height <= content.y + content.height);
    assert_eq!(recent_area(content, 0, 20), None);
    let first = recent_area(content, 1, 0).expect("the first row is drawn");
    let second = recent_area(content, 1, 1).expect("the second row is drawn");
    assert_eq!(second.y, first.y + 1);
}

#[test]
fn the_rows_of_the_bundle_editor_are_apart() {
    let content = Rect::new(1, 1, 70, 12);
    for listed in [0, 1, 3, 50] {
        let areas = bundle_layout(content, listed);
        assert_eq!(areas.heading.y, content.y);
        assert_eq!(areas.list.y, content.y + 1);
        assert_eq!(areas.label.y, areas.list.y + areas.list.height);
        assert_eq!(areas.field.y, areas.label.y + 1);
        assert!(areas.field.y < areas.help.y);
        assert!(areas.help.y < areas.tools.y);
        assert!(areas.tools.y < areas.buttons.y);
    }
}

#[test]
fn access_modes_are_told_apart() {
    assert_eq!(access_choices(false), [MountAccess::Ro, MountAccess::Cow, MountAccess::Rw]);
    assert_eq!(access_choices(true), [MountAccess::Ro, MountAccess::Rw]);
    assert_eq!(access_index(&access_choices(false), MountAccess::Rw), 2);
    assert_eq!(access_index(&access_choices(true), MountAccess::Cow), 0);
    let repeated = vec![MountAccess::Ro, MountAccess::Ro, MountAccess::Ro, MountAccess::Rw, MountAccess::Rw];
    assert_eq!(access_index(&repeated, MountAccess::Rw), 3);
    assert_eq!(access_marker(MountAccess::Cow), " · cow");
    assert_eq!(access_description(MountAccess::Cow), "cow · container-private copy-on-write");
}

#[test]
fn an_edited_attachment_takes_its_own_place() {
    let mut mounts = MountWizard::with_mounts(
        Vec::new(),
        vec![attached("/a", MountAccess::Ro), attached("/b", MountAccess::Rw)],
    );
    mounts.editing_mount = Some(1);
    mounts.source.set_value("/c");
    mounts.destination.set_value("/mnt/a");
    assert_eq!(
        mounts.validate_mount_entry(None, None).as_deref(),
        Some("/mnt/a is already an attached directory destination.")
    );
    mounts.destination.set_value("/mnt/b");
    assert_eq!(mounts.validate_mount_entry(None, None), None);
    assert_eq!(
        mounts.validate_mount_entry(Some("bad source".into()), Some("bad place".into())).as_deref(),
        Some("bad source")
    );
    mounts.add_validated_mount();
    assert_eq!(mounts.mounts.len(), 2);
    assert_eq!(mounts.mounts[1].source, "/c");
    assert_eq!(mounts.editing_mount, None);
}

#[test]
fn the_source_history_stops_at_its_ends() {
    let mut mounts = MountWizard::new(vec!["/a".into(), "/b".into()]);
    mounts.walk_history(false);
    assert_eq!(mounts.source.text, "/b");
    mounts.walk_history(false);
    assert_eq!(mounts.source.text, "/b");
    mounts.walk_history(true);
    mounts.walk_history(true);
    assert_eq!(mounts.source.text, "/a");
}

#[test]
fn paths_agree_with_the_standard_library() {
    let samples = ["", "/", "a", "/a", "a/", "/a/b", "/a//b", "/a/./b/", "./a", "..", "/a/..", "//", "/mnt/cache"];
    for a in samples {
        let path = std::path::Path::new(a);
        assert_eq!(
            last_name(a),
            path.file_name().map(|name| name.to_string_lossy().into_owned()),
            "{a:?}"
        );
        for b in samples {
            assert_eq!(paths_match(a, b), path == std::path::Path::new(b), "{a:?} {b:?}");
            assert_eq!(
                join_path(a, b),
                path.join(b).to_string_lossy().into_owned(),
                "{a:?} {b:?}"
            );
        }
    }
}

#[test]
fn sizes_are_kept_within_what_the_host_has() {
    assert_eq!(clamp_resources(0, 0, None), (1, 1));
    assert_eq!(clamp_resources(8, 64, Some((4, 32))), (4, 32));
    assert_eq!(clamp_resources(8, 64, Some((0, 0))), (1, 1));
    assert_eq!(clamp_resources(2, 16, Some((4, 32))), (2, 16));
}

#[test]
fn a_known_instance_type_is_kept_else_eight_processors() {
    let option = |name: &str, vcpus: u64| ResourceAllocation::AwsEc2 {
        instance_type: name.into(),
        vcpus,
        memory_bytes: vcpus * 1024,
    };
    let options = vec![option("small", 4), option("eight", 8), option("large", 16)];
    assert_eq!(
        preferred_aws_option(&options, &Some(option("large", 1))),
        Some(option("large", 16))
    );
    assert_eq!(preferred_aws_option(&options, &Some(option("gone", 2))), Some(option("eight", 8)));
    assert_eq!(preferred_aws_option(&options, &None), Some(option("eight", 8)));
    assert_eq!(preferred_aws_option(&vec![option("small", 4)], &None), None);
}

#[test]
fn sizes_are_written_out() {
    let gib = 1024 * 1024 * 1024;
    assert_eq!(
        resource_allocation_label(
            &Some(ResourceAllocation::Container { cpus: 8, memory_bytes: 32 * gib }),
            None
        ),
        " · 8 CPU / 32.0G"
    );
    assert_eq!(
        resource_allocation_label(
            &Some(ResourceAllocation::AwsEc2 {
                instance_type: "m7i.2xlarge".into(),
                vcpus: 8,
                memory_bytes: 32 * gib,
            }),
            Some("stale")
        ),
        " · m7i.2xlarge · 8 CPU / 32.0G · stale"
    );
    assert_eq!(resource_allocation_label(&None, None), " · fixed/default resources");
}
