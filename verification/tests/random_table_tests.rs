use custom_datasource::filter::DisplayFormatType;
use custom_datasource::random_table::{project_schema, RandomStream, RandomTable, TableType, BATCH_SIZE};
use custom_datasource::schema::{DataType, Field, Schema};

fn ab_schema() -> Schema {
    Schema::new(vec![Field::new("a", DataType::Int32, false), Field::new("b", DataType::Float64, true)])
}

#[test]
fn scan_without_limit_or_projection() {
    let table = RandomTable::new(ab_schema(), 100, 42);
    assert_eq!(table.table_type(), TableType::Base);
    assert_eq!(table.schema().fields[0].name, "a");
    let exec = table.scan(None, None);
    assert_eq!(exec.num_rows, 100);
    assert_eq!(exec.seed, 42);
    assert!(exec.projection.is_none());
    assert_eq!(exec.schema.len(), 2);
    assert_eq!(exec.schema.fields[1].data_type, DataType::Float64);
}

#[test]
fn scan_with_limit_and_projection() {
    let table = RandomTable::new(ab_schema(), 100, 42);
    let projection = vec![1, 0, 1];
    let exec = table.scan(Some(&projection), Some(7));
    assert_eq!(exec.num_rows, 7);
    assert_eq!(exec.projection, Some(vec![1, 0, 1]));
    let names: Vec<&str> = exec.schema.fields.iter().map(|f| f.name.as_str()).collect();
    assert_eq!(names, vec!["b", "a", "b"]);
}

#[test]
fn project_schema_keeps_order_of_indices() {
    let schema = ab_schema();
    let projected = project_schema(&schema, &Some(vec![1]));
    assert_eq!(projected.len(), 1);
    assert_eq!(projected.fields[0].name, "b");
    let all = project_schema(&schema, &None);
    assert_eq!(all.len(), 2);
}

#[test]
fn stream_hands_out_batches_up_to_the_limit() {
    let table = RandomTable::new(ab_schema(), 300, 7);
    let mut stream = table.scan(None, None).execute(0);
    assert_eq!(stream.batch_size, BATCH_SIZE);
    let mut lengths = Vec::new();
    while let Some(n) = stream.next_batch_len() {
        lengths.push(n);
        stream.advance(n);
    }
    assert_eq!(lengths, vec![128, 128, 44]);
    assert_eq!(stream.produced, 300);
    assert_eq!(stream.next_batch_len(), None);
}

#[test]
fn empty_stream_hands_out_nothing() {
    let stream = RandomStream::new(ab_schema(), 1, 0);
    assert_eq!(stream.next_batch_len(), None);
}

#[test]
fn random_values_have_the_requested_count_and_follow_the_seed() {
    let mut s1 = RandomStream::new(ab_schema(), 42, 10);
    let mut s2 = RandomStream::new(ab_schema(), 42, 10);
    let v1 = s1.random_int32_values(10);
    let v2 = s2.random_int32_values(10);
    assert_eq!(v1.len(), 10);
    assert_eq!(v1, v2);
    assert_eq!(s1.produced, 0);
    assert_ne!(s1.random_int32_values(10), v1);
}

#[test]
fn random_table_exec_display() {
    let exec = RandomTable::new(ab_schema(), 3, 1).scan(None, None);
    assert_eq!(exec.name(), "random table");
    assert_eq!(exec.fmt_as(DisplayFormatType::Default), "RandomTableExec");
    assert_eq!(exec.fmt_as(DisplayFormatType::TreeRender), "");
}

#[test]
fn projection_keeps_nullability() {
    let table = RandomTable::new(ab_schema(), 10, 1);
    let exec = table.scan(Some(&vec![1, 0]), None);
    assert!(exec.schema.fields[0].nullable);
    assert!(!exec.schema.fields[1].nullable);
    assert_eq!(exec.schema.fields[0].data_type, DataType::Float64);
    let stream = exec.execute(3);
    assert_eq!(stream.schema().fields[1].name, "a");
    assert!(!stream.schema().fields[1].nullable);
}

#[test]
fn stream_batches_for_a_limit_below_one_batch() {
    let mut stream = RandomStream::new(ab_schema(), 5, 3);
    assert_eq!(stream.next_batch_len(), Some(3));
    stream.advance(3);
    assert_eq!(stream.next_batch_len(), None);
}

#[test]
fn scan_limit_above_the_table_size_is_taken_as_given() {
    let table = RandomTable::new(ab_schema(), 5, 9);
    let exec = table.scan(None, Some(300));
    assert_eq!(exec.num_rows, 300);
    let mut stream = exec.execute(0);
    let mut total = 0;
    while let Some(n) = stream.next_batch_len() {
        assert!(n <= BATCH_SIZE);
        total += n;
        stream.advance(n);
    }
    assert_eq!(total, 300);
}
