use tabula::objects::ExtractionMethod;
use tabula::objects::OutputFormat;
use tabula::objects::ABSOLUTE_AREA_CALCULATION_MODE;
use tabula::objects::RELATIVE_AREA_CALCULATION_MODE;
use tabula::vm::java_array_length;
use tabula::vm::jvm_options;

#[test]
fn area_calculation_modes_have_their_numbers() {
    assert_eq!(RELATIVE_AREA_CALCULATION_MODE, 0);
    assert_eq!(ABSOLUTE_AREA_CALCULATION_MODE, 1);
}

#[test]
fn output_formats_go_by_their_names() {
    assert_eq!(OutputFormat::Csv.field_name(), "CSV");
    assert_eq!(OutputFormat::Json.field_name(), "JSON");
    assert_eq!(OutputFormat::Tsv.field_name(), "TSV");
}

#[test]
fn extraction_methods_go_by_their_names() {
    assert_eq!(ExtractionMethod::Basic.field_name(), "BASIC");
    assert_eq!(ExtractionMethod::Spreadsheet.field_name(), "SPREADSHEET");
    assert_eq!(ExtractionMethod::Decide.field_name(), "DECIDE");
}

#[test]
fn names_tell_the_options_apart() {
    let formats = [OutputFormat::Csv, OutputFormat::Json, OutputFormat::Tsv];
    for a in formats {
        for b in formats {
            assert_eq!(a.field_name() == b.field_name(), a == b);
        }
    }
    let methods =
        [ExtractionMethod::Basic, ExtractionMethod::Spreadsheet, ExtractionMethod::Decide];
    for a in methods {
        for b in methods {
            assert_eq!(a.field_name() == b.field_name(), a == b);
        }
    }
}

#[test]
fn runtime_starts_with_the_class_path() {
    let archive = "../tabula-java/target/tabula-1.0.6-SNAPSHOT-jar-with-dependencies.jar";
    assert_eq!(
        jvm_options(archive, false),
        vec![String::from(
            "-Djava.class.path=../tabula-java/target/tabula-1.0.6-SNAPSHOT-jar-with-dependencies.jar"
        )]
    );
    assert_eq!(jvm_options("", false), vec![String::from("-Djava.class.path=")]);
}

#[test]
fn debugging_adds_the_checking_option() {
    assert_eq!(
        jvm_options("tabula.jar", true),
        vec![String::from("-Djava.class.path=tabula.jar"), String::from("-Xcheck:jni")]
    );
}

#[test]
fn array_lengths_stop_at_the_runtime_limit() {
    assert_eq!(java_array_length(0), Some(0));
    assert_eq!(java_array_length(1), Some(1));
    assert_eq!(java_array_length(2147483647), Some(2147483647));
    assert_eq!(java_array_length(2147483648), None);
    assert_eq!(java_array_length(usize::MAX), None);
}
