use rust_search::SearchError;

#[test]
fn error_messages() {
    assert_eq!(SearchError::InvalidPattern("x".into()).message(), "无效的搜索模式: x");
    assert_eq!(SearchError::InvalidRoot("/a".into()).message(), "根目录不存在或不可访问: /a");
    assert_eq!(SearchError::RegexCompile("bad".into()).message(), "正则表达式编译失败: bad");
    assert_eq!(SearchError::Jni("j".into()).message(), "JNI 交互错误: j");
    assert_eq!(SearchError::Cancelled.message(), "搜索已取消");
    assert_eq!(SearchError::Internal("i".into()).message(), "内部错误: i");
    assert_eq!(SearchError::Io(std::io::Error::other("disk gone")).message(), "IO 错误: disk gone");
}
