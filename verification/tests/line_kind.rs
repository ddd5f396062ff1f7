use rust_search::search::line_kind::{classify_line, LineKind};

#[test]
fn test_classify_code() {
    assert_eq!(classify_line("fun main() {}"), LineKind::Code);
    assert_eq!(classify_line("    val x = 1"), LineKind::Code);
    assert_eq!(classify_line("public class Foo"), LineKind::Code);
    assert_eq!(classify_line(""), LineKind::Code);
}

#[test]
fn test_classify_comment() {
    assert_eq!(classify_line("// 单行注释"), LineKind::Comment);
    assert_eq!(classify_line("    // 缩进注释"), LineKind::Comment);
    assert_eq!(classify_line("# Shell/Python 注释"), LineKind::Comment);
    assert_eq!(classify_line("/* 块注释开始"), LineKind::Comment);
    assert_eq!(classify_line(" * 块注释中间行"), LineKind::Comment);
    assert_eq!(classify_line("<!-- HTML 注释"), LineKind::Comment);
    assert_eq!(classify_line("-- SQL/Lua 注释"), LineKind::Comment);
}

#[test]
fn test_classify_package() {
    assert_eq!(classify_line("package com.example.foo"), LineKind::Package);
    assert_eq!(classify_line("    package com.example.bar"), LineKind::Package);
    assert_eq!(classify_line("packageInfo"), LineKind::Code);
}

#[test]
fn test_classify_import() {
    assert_eq!(classify_line("import java.util.List"), LineKind::Import);
    assert_eq!(classify_line("    import kotlin.coroutines.*"), LineKind::Import);
    assert_eq!(classify_line("#include <stdio.h>"), LineKind::Import);
    assert_eq!(classify_line("#include \"header.h\""), LineKind::Import);
    assert_eq!(classify_line("include <iostream>"), LineKind::Import);
    assert_eq!(classify_line("require 'logger'"), LineKind::Import);
    assert_eq!(classify_line("using namespace std;"), LineKind::Import);
    assert_eq!(classify_line("from typing import List"), LineKind::Import);
}

#[test]
fn test_line_kind_ordinal() {
    assert_eq!(LineKind::Code as u8, 0);
    assert_eq!(LineKind::Comment as u8, 1);
    assert_eq!(LineKind::Import as u8, 2);
    assert_eq!(LineKind::Package as u8, 3);
}

#[test]
fn line_kind_ordinal_method_matches_declaration_order() {
    assert_eq!(LineKind::Code.ordinal(), 0);
    assert_eq!(LineKind::Comment.ordinal(), 1);
    assert_eq!(LineKind::Import.ordinal(), 2);
    assert_eq!(LineKind::Package.ordinal(), 3);
    assert_eq!(LineKind::default(), LineKind::Code);
}

#[test]
fn classify_ignores_indentation() {
    for line in ["package a.b", "import x", "// c", "val y = 1", "#include <a>", "* m"] {
        let indented = format!(" \t\u{3000} {line}");
        assert_eq!(classify_line(&indented), classify_line(line));
    }
}

#[test]
fn classify_priority_and_boundaries() {
    // `#include` is an import, not a comment; `#includes` too (no space needed).
    assert_eq!(classify_line("#includes"), LineKind::Import);
    // `include` needs its trailing space.
    assert_eq!(classify_line("includes"), LineKind::Code);
    // a multiplication at the start of a line reads as a comment
    assert_eq!(classify_line("* a * b"), LineKind::Comment);
    // only whitespace
    assert_eq!(classify_line("   \t  "), LineKind::Code);
    assert_eq!(classify_line("--"), LineKind::Comment);
    assert_eq!(classify_line("-"), LineKind::Code);
}
