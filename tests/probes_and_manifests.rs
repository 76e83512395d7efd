use commayte::system::{
    cpu_model_from_wmic, gpu_from_system_profiler, gpu_from_wmic, line_value, macos_description,
    memory_gb_from_bytes_text, memory_gb_from_wmic, parse_u64, trimmed_output, windows_description,
};
use commayte::generation::{response_text, Config, GenerationError};
use commayte::project::{
    gradle_info, get_project_context, get_project_info, go_info, readme_title_of, tag_text,
    ProjectFiles,
};
use commayte::system::{
    cpu_model_from_cpuinfo, gpu_from_glxinfo, gpu_from_lspci, memory_gb_from_meminfo,
    os_from_os_release, parse_u32,
};

fn no_files() -> ProjectFiles {
    ProjectFiles {
        cargo_toml: None,
        package_json: None,
        build_gradle: None,
        pom_xml: None,
        pyproject_toml: None,
        has_requirements_txt: false,
        go_mod: None,
        composer_json: None,
        has_gemfile: false,
        has_dockerfile: false,
        has_docker_compose: false,
        has_github_workflows: false,
        readme: None,
    }
}

#[test]
fn cargo_manifest_fields() {
    let mut files = no_files();
    files.cargo_toml = Some(
        "[package]\nname = \"demo\"\nversion = \"0.2.0\"\ndescription = \"A demo\"\nkeywords = [\"cli\", \"git\"]\n"
            .to_string(),
    );
    files.has_dockerfile = true;
    let info = get_project_info(&files);
    assert_eq!(info.name.as_deref(), Some("demo"));
    assert_eq!(info.version.as_deref(), Some("0.2.0"));
    assert_eq!(info.description.as_deref(), Some("A demo"));
    assert_eq!(info.keywords.as_deref(), Some("cli, git"));
    assert_eq!(info.project_type.as_deref(), Some("rust"));
    assert!(info.has_docker);
    assert_eq!(
        get_project_context(&files),
        "- Name: demo\n- Version: 0.2.0\n- Description: A demo\n- Type: rust\n- Keywords: cli, git\n- Has Docker: true\n\n"
    );
}

#[test]
fn invalid_cargo_manifest_stops_the_search() {
    let mut files = no_files();
    files.cargo_toml = Some("not = = toml".to_string());
    files.package_json = Some("{\"name\": \"js\"}".to_string());
    let info = get_project_info(&files);
    assert_eq!(info.project_type, None);
    assert_eq!(info.name, None);
    assert_eq!(get_project_context(&files), "");
}

#[test]
fn package_json_fields() {
    let mut files = no_files();
    files.package_json = Some("{\"name\": \"web\", \"version\": \"1.0.0\", \"keywords\": [\"a\", 3, \"b\"]}".to_string());
    let info = get_project_info(&files);
    assert_eq!(info.name.as_deref(), Some("web"));
    assert_eq!(info.keywords.as_deref(), Some("a, b"));
    assert_eq!(info.project_type.as_deref(), Some("nodejs"));
}

#[test]
fn gradle_lines() {
    let (g, v, d) = gradle_info("plugins {}\ngroup = 'com.example'\nversion=\"1.4\"\n  description = \"Tool\"  \n");
    assert_eq!(g.as_deref(), Some("com.example"));
    assert_eq!(v.as_deref(), Some("1.4"));
    assert_eq!(d.as_deref(), Some("Tool"));
    let mut files = no_files();
    files.build_gradle = Some("apply plugin: 'java'\n".to_string());
    files.readme = Some("# My Tool\nmore".to_string());
    let info = get_project_info(&files);
    assert_eq!(info.project_type, None);
    assert_eq!(info.name.as_deref(), Some("My Tool"));
}

#[test]
fn pom_tags() {
    let pom = "<project><name> core </name><version>2.1</version></project>";
    assert_eq!(tag_text(pom, "<name>", "</name>").as_deref(), Some("core"));
    assert_eq!(tag_text(pom, "<description>", "</description>"), None);
    let mut files = no_files();
    files.pom_xml = Some(pom.to_string());
    let info = get_project_info(&files);
    assert_eq!(info.project_type.as_deref(), Some("java"));
    assert_eq!(info.version.as_deref(), Some("2.1"));
}

#[test]
fn go_module_lines() {
    let (m, g) = go_info("module example.com/tool\n\ngo 1.22\n");
    assert_eq!(m.as_deref(), Some("example.com/tool"));
    assert_eq!(g.as_deref(), Some("1.22"));
    let mut files = no_files();
    files.go_mod = Some("module example.com/tool\ngo 1.22\n".to_string());
    files.has_github_workflows = true;
    assert_eq!(
        get_project_context(&files),
        "- Name: example.com/tool\n- Type: go\n- Go Version: 1.22\n- Has GitHub Actions: true\n\n"
    );
}

#[test]
fn readme_title_rules() {
    assert_eq!(readme_title_of("## Title ##\nbody").as_deref(), Some("Title ##"));
    assert_eq!(readme_title_of(""), None);
    let mut files = no_files();
    files.has_gemfile = true;
    files.readme = Some(format!("# {}", "x".repeat(120)));
    let info = get_project_info(&files);
    assert_eq!(info.name, None);
    assert_eq!(info.project_type.as_deref(), Some("ruby"));
}

#[test]
fn backend_answers() {
    assert_eq!(response_text("{\"response\": \"feat: x\"}").unwrap(), "feat: x");
    assert_eq!(response_text("{\"other\": 1}").unwrap(), "");
    assert_eq!(response_text("not json"), Err(GenerationError::Malformed));
    assert_eq!(Config::default().model, "mistral");
}

#[test]
fn cpuinfo_model() {
    let text = "processor\t: 0\nmodel name\t: Intel(R) Core(TM) i7-8700 CPU @ 3.20GHz\nflags : x";
    assert_eq!(cpu_model_from_cpuinfo(text), "Intel(R) Core(TM) i7-8700 CPU @ 3.20GHz");
    assert_eq!(cpu_model_from_cpuinfo("vendor: x"), "Unknown CPU");
}

#[test]
fn meminfo_total() {
    assert_eq!(memory_gb_from_meminfo("MemFree: 1 kB\nMemTotal:       16318412 kB\n"), Some(15));
    assert_eq!(memory_gb_from_meminfo("nothing"), Some(8));
    assert_eq!(memory_gb_from_meminfo("MemTotal: lots kB"), None);
    assert_eq!(memory_gb_from_meminfo("MemTotal: 99999999999 kB"), None);
}

#[test]
fn u32_parsing() {
    let p = |s: &str| parse_u32(&s.chars().collect());
    assert_eq!(p("4294967295"), Some(u32::MAX));
    assert_eq!(p("4294967296"), None);
    assert_eq!(p("+12"), Some(12));
    assert_eq!(p("+"), None);
    assert_eq!(p(""), None);
    assert_eq!(p("1a"), None);
    assert_eq!(p("-1"), None);
}

#[test]
fn gpu_and_os_lines() {
    let lspci = "00:02.0 VGA compatible controller: Intel Corporation UHD Graphics 630 (rev 02)";
    assert_eq!(gpu_from_lspci(lspci).as_deref(), Some("Intel Corporation UHD Graphics 630 (rev 02)"));
    let lspci3 = "Flags: bus master
01:00.0 3D controller: NVIDIA Corporation: GA102 [RTX 3080]";
    assert_eq!(gpu_from_lspci(lspci3).as_deref(), Some("NVIDIA Corporation"));
    assert_eq!(gpu_from_lspci("VGA: only two"), None);
    assert_eq!(gpu_from_glxinfo("OpenGL renderer string: Mesa Intel(R) UHD\n").as_deref(), Some("Mesa Intel(R) UHD"));
    assert_eq!(os_from_os_release("NAME=x\nPRETTY_NAME=\"Ubuntu 22.04 LTS\"\n"), "Linux - Ubuntu 22.04 LTS");
    assert_eq!(os_from_os_release(""), "Linux");
}

#[test]
fn other_platform_outputs() {
    assert_eq!(memory_gb_from_bytes_text("17179869184\n"), Some(16));
    assert_eq!(memory_gb_from_bytes_text("n/a"), None);
    assert_eq!(cpu_model_from_wmic("\r\n\r\nName=Intel(R) Core(TM) i9\r\n"), "Intel(R) Core(TM) i9");
    assert_eq!(cpu_model_from_wmic(""), "Unknown CPU");
    assert_eq!(gpu_from_wmic("Name=NVIDIA GeForce RTX 4090\n"), "NVIDIA GeForce RTX 4090");
    assert_eq!(gpu_from_wmic("Other=x"), "Unknown GPU");
    assert_eq!(memory_gb_from_wmic("TotalPhysicalMemory=34359738368\r\n"), Some(32));
    assert_eq!(memory_gb_from_wmic("nothing"), Some(8));
    assert_eq!(memory_gb_from_wmic("TotalPhysicalMemory=lots"), None);
    assert_eq!(line_value("a=1\nkey=x key= y\n", "key=").as_deref(), Some("x  y"));
    assert_eq!(
        gpu_from_system_profiler("Graphics:\n    Apple M2:\n      Chipset Model: Apple M2\n"),
        "Apple M2"
    );
    assert_eq!(gpu_from_system_profiler(""), "Unknown GPU");
    assert_eq!(trimmed_output("  Apple M2 Pro\n"), "Apple M2 Pro");
    assert_eq!(macos_description("macOS\n", "14.1\n"), "macOS macOS 14.1");
    assert_eq!(windows_description("\r\nMicrosoft Windows [Version 10]\r\n"), "Windows Microsoft Windows [Version 10]");
    let p = |s: &str| parse_u64(&s.chars().collect());
    assert_eq!(p("18446744073709551615"), Some(u64::MAX));
    assert_eq!(p("18446744073709551616"), None);
}

#[test]
fn pyproject_and_composer_fields() {
    let mut files = no_files();
    files.pyproject_toml = Some("[project]\nname = \"pkg\"\nversion = \"3.1\"\n".to_string());
    let info = get_project_info(&files);
    assert_eq!(info.name.as_deref(), Some("pkg"));
    assert_eq!(info.version.as_deref(), Some("3.1"));
    assert_eq!(info.project_type.as_deref(), Some("python"));
    let mut files = no_files();
    files.composer_json = Some("{\"name\": \"vendor/app\", \"description\": \"PHP app\", \"version\": \"9\"}".to_string());
    let info = get_project_info(&files);
    assert_eq!(info.name.as_deref(), Some("vendor/app"));
    assert_eq!(info.description.as_deref(), Some("PHP app"));
    assert_eq!(info.version, None);
    assert_eq!(info.project_type.as_deref(), Some("php"));
}

#[test]
fn cargo_without_package_table_uses_readme() {
    let mut files = no_files();
    files.cargo_toml = Some("[workspace]\nmembers = []\n".to_string());
    files.readme = Some("# Workspace\n".to_string());
    let info = get_project_info(&files);
    assert_eq!(info.name.as_deref(), Some("Workspace"));
    assert_eq!(info.version, None);
    assert_eq!(info.keywords, None);
    assert_eq!(info.project_type.as_deref(), Some("rust"));
}
