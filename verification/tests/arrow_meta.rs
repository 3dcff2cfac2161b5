//! The Arrow IPC metadata batch and its round trip through the reader.

use arrow::array::Array;
use arrow::array::MapArray;
use arrow::array::StringArray;
use arrow::ipc::reader::StreamReader;
use zustdpipe::jobs::metadata_to_arrow;
use zustdpipe::modules::ModuleType;
use zustdpipe::pipeline::ProcessDefinition;
use zustdpipe::pipeline::ProcessModuleRequirements;

fn process_with_parameters(parameters: Vec<(String, String)>) -> ProcessDefinition {
    ProcessDefinition {
        module: ProcessModuleRequirements {
            name: "echo.wasm".to_string(),
            module_type: ModuleType::Wasm,
        },
        parameters,
    }
}

#[test]
fn parameters_round_trip_through_the_ipc_reader() {
    let pd = process_with_parameters(vec![
        ("key1".to_string(), "val1".to_string()),
        ("key2".to_string(), "".to_string()),
    ]);
    let bytes = metadata_to_arrow(&pd).expect("parameters serialize");
    let reader = StreamReader::try_new(bytes.as_slice(), None).expect("a valid IPC stream");
    let schema = reader.schema();
    assert_eq!(schema.fields().len(), 1);
    assert_eq!(schema.field(0).name(), "parameters");
    let batches: Vec<_> = reader.map(|b| b.expect("a valid batch")).collect();
    assert_eq!(batches.len(), 1);
    let batch = &batches[0];
    assert_eq!(batch.num_rows(), 1);
    let map = batch
        .column(0)
        .as_any()
        .downcast_ref::<MapArray>()
        .expect("the parameters column is a map");
    let keys = map.keys().as_any().downcast_ref::<StringArray>().expect("utf8 keys");
    let vals = map.values().as_any().downcast_ref::<StringArray>().expect("utf8 values");
    assert_eq!(keys.len(), 2);
    assert_eq!(keys.value(0), "key1");
    assert_eq!(keys.value(1), "key2");
    assert_eq!(vals.value(0), "val1");
    // a parameter with an empty value round-trips
    assert_eq!(vals.value(1), "");
}

#[test]
fn empty_parameters_still_form_a_readable_stream() {
    let pd = process_with_parameters(Vec::new());
    let bytes = metadata_to_arrow(&pd).expect("an empty parameter list serializes");
    let reader = StreamReader::try_new(bytes.as_slice(), None).expect("a valid IPC stream");
    let batches: Vec<_> = reader.map(|b| b.expect("a valid batch")).collect();
    assert_eq!(batches.len(), 1);
    assert_eq!(batches[0].num_rows(), 1);
    let map = batches[0]
        .column(0)
        .as_any()
        .downcast_ref::<MapArray>()
        .expect("the parameters column is a map");
    assert_eq!(map.keys().len(), 0);
}

#[test]
fn metadata_refuses_parameters_too_large_to_serialize() {
    // one key of 2^29 chars: four bytes per char passes the encoder's
    // i32 offset bound, so the library's own size error comes back
    let big = "a".repeat(536870912);
    let pd = process_with_parameters(vec![(big, "v".to_string())]);
    let err = match metadata_to_arrow(&pd) {
        Err(e) => e,
        Ok(_) => panic!("expected the size error"),
    };
    assert_eq!(err.message(), "Process parameters are too large to serialize");
}

#[test]
fn equal_inputs_give_equal_metadata_bytes() {
    let pd1 = process_with_parameters(vec![("a".to_string(), "b".to_string())]);
    let pd2 = process_with_parameters(vec![("a".to_string(), "b".to_string())]);
    assert_eq!(
        metadata_to_arrow(&pd1).expect("serializes"),
        metadata_to_arrow(&pd2).expect("serializes"),
    );
}
