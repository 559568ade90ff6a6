use verne::libvirt::CreateMode;
use verne::libvirt::Dialect;
use verne::libvirt::clean_plan;
use verne::libvirt::create_mode;
use verne::libvirt::dialect_for;
use verne::libvirt::guest_xml;

#[test]
fn qemu_and_test_use_the_full_virtualization_dialect() {
    assert_eq!(dialect_for("qemu"), Some(Dialect::FullVirt));
    assert_eq!(dialect_for("test"), Some(Dialect::FullVirt));
}

#[test]
fn lxc_uses_the_container_dialect() {
    assert_eq!(dialect_for("lxc"), Some(Dialect::Container));
}

#[test]
fn unknown_backend_kind_is_unsupported() {
    assert_eq!(dialect_for("xen"), None);
    assert_eq!(dialect_for(""), None);
    assert_eq!(dialect_for("QEMU"), None);
}

#[test]
fn full_virtualization_guest_document() {
    let xml = guest_xml("qemu", Dialect::FullVirt, "a", 512, 1);
    assert_eq!(
        xml,
        "<domain type='qemu'><name>a</name><memory unit='KiB'>512</memory><vcpus>1</vcpus>\
         <features><acpi/><apic/></features><os><type>hvm</type></os></domain>",
    );
}

#[test]
fn container_guest_document() {
    let xml = guest_xml("lxc", Dialect::Container, "box", 2048, 4);
    assert_eq!(
        xml,
        "<domain type='lxc'><name>box</name><memory unit='KiB'>2048</memory><vcpus>4</vcpus>\
         <os><type>exe</type><init>/bin/sh</init></os><devices><console type='pty'/></devices></domain>",
    );
}

#[test]
fn memory_digits_are_exact_at_the_largest_size() {
    let xml = guest_xml("test", Dialect::FullVirt, "big", u64::MAX, 4294967295);
    assert!(xml.contains("<memory unit='KiB'>18446744073709551615</memory>"));
    assert!(xml.contains("<vcpus>4294967295</vcpus>"));
}

#[test]
fn transient_create_persists_nothing() {
    assert_eq!(create_mode(true), CreateMode::TransientStart);
    assert_eq!(create_mode(false), CreateMode::DefineThenStart);
}

#[test]
fn transient_clean_never_removes_a_definition() {
    let plan = clean_plan(true);
    assert!(plan.destroy);
    assert!(!plan.undefine);
}

#[test]
fn persistent_clean_always_destroys_and_undefines() {
    let plan = clean_plan(false);
    assert!(plan.destroy);
    assert!(plan.undefine);
}
