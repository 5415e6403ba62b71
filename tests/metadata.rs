use vm_backup::{BackupXMLParser, VirtualMachineState, VM};

const DOMAIN_XML: &str = "<domain type='kvm'>\n  <name>  haos  </name>\n  <uuid>\n    3f2a1b7c-0000-4000-8000-000000000001\n  </uuid>\n  <devices>\n    <interface type='network'><source network='default'/></interface>\n    <disk type='file' device='disk'>\n      <driver name='qemu' type='qcow2'/>\n      <source file='/srv/images/haos.qcow2'/>\n    </disk>\n  </devices>\n</domain>\n";

#[test]
fn name_and_uuid_are_extracted_and_trimmed() {
    let p = BackupXMLParser::new(DOMAIN_XML.to_string());
    assert_eq!(p.get_name(), Some("haos".to_string()));
    assert_eq!(p.get_uuid(), Some("3f2a1b7c-0000-4000-8000-000000000001".to_string()));
}

#[test]
fn nested_field_is_found_anywhere_in_the_tree() {
    let p = BackupXMLParser::new("<a><b><c><name>deep</name></c></b><name>later</name></a>".to_string());
    assert_eq!(p.get_node_text("name"), Some("deep".to_string()));
    assert_eq!(p.get_node_text("driver"), None);
}

#[test]
fn missing_field_in_well_formed_document_is_absent() {
    let p = BackupXMLParser::new("<domain><memory>1024</memory></domain>".to_string());
    assert_eq!(p.get_name(), None);
    assert_eq!(p.get_uuid(), None);
}

#[test]
fn malformed_document_gives_absent() {
    let p = BackupXMLParser::new("<domain><name>x</domain>".to_string());
    assert_eq!(p.get_name(), None);
    let empty = BackupXMLParser::new(String::new());
    assert_eq!(empty.get_uuid(), None);
}

#[test]
fn element_without_text_is_absent() {
    let p = BackupXMLParser::new("<domain><name/></domain>".to_string());
    assert_eq!(p.get_name(), None);
}

#[test]
fn disk_source_is_the_file_of_the_first_disk_source() {
    let p = BackupXMLParser::new(DOMAIN_XML.to_string());
    assert_eq!(p.get_disk_source(), Some("/srv/images/haos.qcow2".to_string()));
    let none = BackupXMLParser::new("<domain><devices><interface><source network='x'/></interface></devices></domain>".to_string());
    assert_eq!(none.get_disk_source(), None);
}

#[test]
fn vm_new_keeps_name_and_state() {
    let vm = VM::new("web".to_string(), VirtualMachineState::Running);
    assert_eq!(vm.name, "web");
    assert!(vm.is_running());
    let off = VM::new("db".to_string(), VirtualMachineState::ShutOff);
    assert!(!off.is_running());
}

#[test]
fn vm_from_config_takes_the_documented_name() {
    let vm = VM::from_config(&BackupXMLParser::new(DOMAIN_XML.to_string()));
    assert_eq!(vm.name, "haos");
    assert_eq!(vm.state, VirtualMachineState::Undefined);
    let nameless = VM::from_config(&BackupXMLParser::new("<domain/>".to_string()));
    assert_eq!(nameless.name, "");
}

#[test]
fn vm_from_name() {
    let vm = VM::from("mail".to_string());
    assert_eq!(vm.name, "mail");
    assert_eq!(vm.state, VirtualMachineState::Undefined);
}
