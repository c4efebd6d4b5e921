use fastsim::codegen::{doc_field, history_vec_derive, FieldShape, StructShape};

fn shape() -> StructShape {
    StructShape {
        name: String::from("ThermalState"),
        fields: vec![
            FieldShape { name: String::from("temp"), ty: String::from("f64"), doc: true },
            FieldShape { name: String::from("on"), ty: String::from("bool"), doc: false },
        ],
    }
}

#[test]
fn history_vec_has_one_vector_per_field() {
    let text = history_vec_derive(&shape());
    let expected = "pub struct ThermalStateHistoryVec {\n    pub temp: Vec<f64>,\n    pub on: Vec<bool>,\n}\n\nimpl ThermalStateHistoryVec {\n    pub fn push(&mut self, value: ThermalState) {\n        self.temp.push(value.temp);\n        self.on.push(value.on);\n    }\n}\n";
    assert_eq!(text, expected);
}

#[test]
fn history_vec_of_empty_record() {
    let s = StructShape { name: String::from("Empty"), fields: Vec::new() };
    assert_eq!(
        history_vec_derive(&s),
        "pub struct EmptyHistoryVec {\n}\n\nimpl EmptyHistoryVec {\n    pub fn push(&mut self, value: Empty) {\n    }\n}\n"
    );
}

#[test]
fn doc_field_adds_companions_where_asked() {
    let text = doc_field(&shape());
    let expected = "pub struct ThermalState {\n    pub temp: f64,\n    pub temp_doc: Option<String>,\n    pub on: bool,\n}\n";
    assert_eq!(text, expected);
}
