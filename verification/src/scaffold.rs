//! The content of generated scaffold files: container build descriptors, chart
//! skeletons, starter sources, CI manifests and environment overlays.

use vstd::prelude::*;
use vstd::string::*;
use crate::config::MeshstackConfig;
use crate::text::same_text;

verus! {

/// The build descriptor for a Rust service
pub const DOCKERFILE_RUST: &'static str = "# Multi-stage build for Rust\nFROM rust:1.70 as builder\n\nWORKDIR /app\nCOPY Cargo.toml Cargo.lock ./\nCOPY src ./src\n\nRUN cargo build --release\n\nFROM debian:bookworm-slim\nRUN apt-get update && apt-get install -y ca-certificates && rm -rf /var/lib/apt/lists/*\n\nCOPY --from=builder /app/target/release/app /usr/local/bin/app\n\nEXPOSE 8080\nCMD [\"app\"]\n";

/// The build descriptor for a Node service
pub const DOCKERFILE_NODE: &'static str = "FROM node:18-alpine\n\nWORKDIR /app\n\nCOPY package*.json ./\nRUN npm ci --only=production\n\nCOPY . .\n\nEXPOSE 3000\nUSER node\n\nCMD [\"npm\", \"start\"]\n";

/// The build descriptor for a Python service
pub const DOCKERFILE_PYTHON: &'static str = "FROM python:3.11-slim\n\nWORKDIR /app\n\nCOPY requirements.txt .\nRUN pip install --no-cache-dir -r requirements.txt\n\nCOPY . .\n\nEXPOSE 8000\nUSER 1000\n\nCMD [\"python\", \"app.py\"]\n";

/// The build descriptor for a Go service
pub const DOCKERFILE_GO: &'static str = "# Multi-stage build for Go\nFROM golang:1.21-alpine AS builder\n\nWORKDIR /app\nCOPY go.mod go.sum ./\nRUN go mod download\n\nCOPY . .\nRUN CGO_ENABLED=0 GOOS=linux go build -o main .\n\nFROM alpine:latest\nRUN apk --no-cache add ca-certificates\nWORKDIR /root/\n\nCOPY --from=builder /app/main .\n\nEXPOSE 8080\nCMD [\"./main\"]\n";

/// The build descriptor for a service in no particular language
pub const DOCKERFILE_GENERIC: &'static str = "FROM alpine:latest\n\n# Install basic utilities\nRUN apk --no-cache add ca-certificates curl\n\nWORKDIR /app\n\n# Copy application files\nCOPY . .\n\n# Make any scripts executable\nRUN find . -name \"*.sh\" -exec chmod +x {} \\;\n\nEXPOSE 8080\n\n# Default command - override in your specific implementation\nCMD [\"echo\", \"Please customize this Dockerfile for your specific application\"]\n";

/// The pod annotation that asks Istio for a sidecar
pub const ISTIO_ANNOTATION: &'static str = "\n        sidecar.istio.io/inject: \"true\"";

/// The pod annotation that asks Linkerd for a sidecar
pub const LINKERD_ANNOTATION: &'static str = "\n        linkerd.io/inject: enabled";

/// The starter source of a Rust service
pub const MAIN_RS: &'static str = "use warp::Filter;\n\n#[tokio::main]\nasync fn main() {\n    let health = warp::path(\"health\")\n        .map(|| \"OK\");\n\n    let ready = warp::path(\"ready\")\n        .map(|| \"Ready\");\n\n    let hello = warp::path::end()\n        .map(|| \"Hello from Meshstack service!\");\n\n    let routes = health.or(ready).or(hello);\n\n    println!(\"Starting server on port 8080\");\n    warp::serve(routes)\n        .run(([0, 0, 0, 0], 8080))\n        .await;\n}\n";

/// The starter source of a Node service
pub const INDEX_JS: &'static str = "const express = require('express');\nconst app = express();\nconst port = process.env.PORT || 8080;\n\napp.use(express.json());\n\napp.get('/', (req, res) => {\n  res.json({ message: 'Hello from Meshstack service!' });\n});\n\napp.get('/health', (req, res) => {\n  res.json({ status: 'OK' });\n});\n\napp.get('/ready', (req, res) => {\n  res.json({ status: 'Ready' });\n});\n\napp.listen(port, '0.0.0.0', () => {\n  console.log(`Server running on port ${port}`);\n});\n";

/// Part 1 of the chart descriptor.
pub const CHART_1: &'static str = "apiVersion: v2\nname: ";

/// Part 2 of the chart descriptor.
pub const CHART_2: &'static str = "\ndescription: A Helm chart for ";

/// Part 3 of the chart descriptor.
pub const CHART_3: &'static str = " service\ntype: application\nversion: 0.1.0\nappVersion: \"1.0.0\"\n";

/// Part 1 of the deployment template.
pub const DEPLOYMENT_1: &'static str = "apiVersion: apps/v1\nkind: Deployment\nmetadata:\n  name: {{ include \"";

/// Part 2 of the deployment template.
pub const DEPLOYMENT_2: &'static str = ".fullname\" . }}\n  labels:\n    {{- include \"";

/// Part 3 of the deployment template.
pub const DEPLOYMENT_3: &'static str = ".labels\" . | nindent 4 }}\nspec:\n  replicas: {{ .Values.replicaCount }}\n  selector:\n    matchLabels:\n      {{- include \"";

/// Part 4 of the deployment template.
pub const DEPLOYMENT_4: &'static str = ".selectorLabels\" . | nindent 6 }}\n  template:\n    metadata:\n      annotations:";

/// Part 5 of the deployment template.
pub const DEPLOYMENT_5: &'static str = "\n      labels:\n        {{- include \"";

/// Part 6 of the deployment template.
pub const DEPLOYMENT_6: &'static str = ".selectorLabels\" . | nindent 8 }}\n    spec:\n      containers:\n        - name: {{ .Chart.Name }}\n          image: \"{{ .Values.image.repository }}:{{ .Values.image.tag | default .Chart.AppVersion }}\"\n          imagePullPolicy: {{ .Values.image.pullPolicy }}\n          ports:\n            - name: http\n              containerPort: {{ .Values.service.targetPort }}\n              protocol: TCP\n          livenessProbe:\n            httpGet:\n              path: /health\n              port: http\n            initialDelaySeconds: 30\n            periodSeconds: 10\n          readinessProbe:\n            httpGet:\n              path: /ready\n              port: http\n            initialDelaySeconds: 5\n            periodSeconds: 5\n          resources:\n            {{- toYaml .Values.resources | nindent 12 }}\n";

/// Part 1 of the service template.
pub const SERVICE_1: &'static str = "apiVersion: v1\nkind: Service\nmetadata:\n  name: {{ include \"";

/// Part 2 of the service template.
pub const SERVICE_2: &'static str = ".fullname\" . }}\n  labels:\n    {{- include \"";

/// Part 3 of the service template.
pub const SERVICE_3: &'static str = ".labels\" . | nindent 4 }}\nspec:\n  type: {{ .Values.service.type }}\n  ports:\n    - port: {{ .Values.service.port }}\n      targetPort: {{ .Values.service.targetPort }}\n      protocol: TCP\n      name: http\n  selector:\n    {{- include \"";

/// Part 4 of the service template.
pub const SERVICE_4: &'static str = ".selectorLabels\" . | nindent 4 }}\n";

/// Part 1 of the chart's default values.
pub const VALUES_1: &'static str = "# Default values for ";

/// Part 2 of the chart's default values.
pub const VALUES_2: &'static str = ".\nreplicaCount: 1\n\nimage:\n  repository: meshstack/";

/// Part 3 of the chart's default values.
pub const VALUES_3: &'static str = "\n  pullPolicy: IfNotPresent\n  tag: \"latest\"\n\nservice:\n  type: ClusterIP\n  port: 80\n  targetPort: 8080\n\nresources:\n  limits:\n    cpu: 500m\n    memory: 512Mi\n  requests:\n    cpu: 250m\n    memory: 256Mi\n\nautoscaling:\n  enabled: false\n  minReplicas: 1\n  maxReplicas: 100\n  targetCPUUtilizationPercentage: 80\n\nnodeSelector: {}\n\ntolerations: []\n\naffinity: {}\n";

/// Part 1 of the Rust package manifest.
pub const CARGO_1: &'static str = "[package]\nname = \"";

/// Part 2 of the Rust package manifest.
pub const CARGO_2: &'static str = "\"\nversion = \"0.1.0\"\nedition = \"2021\"\n\n[dependencies]\ntokio = { version = \"1.0\", features = [\"full\"] }\nwarp = \"0.3\"\nserde = { version = \"1.0\", features = [\"derive\"] }\nserde_json = \"1.0\"\n";

/// Part 1 of the Node package manifest.
pub const PACKAGE_1: &'static str = "{\n  \"name\": \"";

/// Part 2 of the Node package manifest.
pub const PACKAGE_2: &'static str = "\",\n  \"version\": \"1.0.0\",\n  \"description\": \"Meshstack service\",\n  \"main\": \"index.js\",\n  \"scripts\": {\n    \"start\": \"node index.js\",\n    \"dev\": \"nodemon index.js\"\n  },\n  \"dependencies\": {\n    \"express\": \"^4.18.0\"\n  },\n  \"devDependencies\": {\n    \"nodemon\": \"^2.0.0\"\n  }\n}\n";

/// Part 1 of the GitHub Actions workflow.
pub const WORKFLOW_1: &'static str = "name: Meshstack CI/CD\n\non:\n  push:\n    branches: [ main, develop ]\n  pull_request:\n    branches: [ main ]\n\njobs:\n  build-and-deploy:\n    runs-on: ubuntu-latest\n\n    steps:\n    - uses: actions/checkout@v3\n\n    - name: Set up Docker Buildx\n      uses: docker/setup-buildx-action@v2\n\n    - name: Login to Container Registry\n      uses: docker/login-action@v2\n      with:\n        registry: ${{ secrets.REGISTRY_URL }}\n        username: ${{ secrets.REGISTRY_USERNAME }}\n        password: ${{ secrets.REGISTRY_PASSWORD }}\n\n    - name: Build and push Docker images\n      run: |\n        for service in services/*/; do\n          if [ -d \"$service\" ]; then\n            service_name=$(basename \"$service\")\n            echo \"Building $service_name\"\n            docker build -t meshstack/$service_name:${{ github.sha }} \"$service\"\n            docker push meshstack/$service_name:${{ github.sha }}\n          fi\n        done\n\n    - name: Deploy to ";

/// Part 2 of the GitHub Actions workflow.
pub const WORKFLOW_2: &'static str = " cluster\n      if: github.ref == 'refs/heads/main'\n      run: |\n        # Add your deployment commands here\n        echo \"Deploying to ";

/// Part 3 of the GitHub Actions workflow.
pub const WORKFLOW_3: &'static str = " service mesh\"\n        # meshstack deploy --env prod\n";

/// Part 1 of the ArgoCD application.
pub const ARGOCD_1: &'static str = "apiVersion: argoproj.io/v1alpha1\nkind: Application\nmetadata:\n  name: ";

/// Part 2 of the ArgoCD application.
pub const ARGOCD_2: &'static str = "\n  namespace: argocd\nspec:\n  project: default\n  source:\n    repoURL: https://github.com/your-org/your-repo\n    targetRevision: HEAD\n    path: .\n  destination:\n    server: https://kubernetes.default.svc\n    namespace: default\n  syncPolicy:\n    automated:\n      prune: true\n      selfHeal: true\n    syncOptions:\n    - CreateNamespace=true\n";

/// Part 1 of an environment overlay.
pub const OVERLAY_1: &'static str = "# ";

/// Part 2 of an environment overlay.
pub const OVERLAY_2: &'static str = " environment values\nenvironment: ";

/// Part 3 of an environment overlay.
pub const OVERLAY_3: &'static str = "\n\n# Resource limits for ";

/// Part 4 of an environment overlay.
pub const OVERLAY_4: &'static str = " environment\nresources:\n  limits:\n    cpu: ";

/// Part 5 of an environment overlay.
pub const OVERLAY_5: &'static str = "\n    memory: ";

/// Part 6 of an environment overlay.
pub const OVERLAY_6: &'static str = "\n  requests:\n    cpu: ";

/// Part 7 of an environment overlay.
pub const OVERLAY_7: &'static str = "\n    memory: ";

/// Part 8 of an environment overlay.
pub const OVERLAY_8: &'static str = "\n\n# Replica count for ";

/// Part 9 of an environment overlay.
pub const OVERLAY_9: &'static str = " environment\nreplicaCount: ";

/// Part 10 of an environment overlay.
pub const OVERLAY_10: &'static str = "\n\n# Service mesh specific configurations\nserviceMesh:\n  enabled: true\n\n# Monitoring and observability\nmonitoring:\n  enabled: true\n\n# Security settings\nsecurity:\n  enabled: true\n";

/// The build descriptor for a language; any language without one of its own
/// gets the generic descriptor.
pub open spec fn dockerfile_for(language: Seq<char>) -> Seq<char> {
    if language == "rust"@ {
        DOCKERFILE_RUST@
    } else if language == "node"@ || language == "javascript"@ {
        DOCKERFILE_NODE@
    } else if language == "python"@ {
        DOCKERFILE_PYTHON@
    } else if language == "go"@ {
        DOCKERFILE_GO@
    } else {
        DOCKERFILE_GENERIC@
    }
}

/// The sidecar annotation for a service mesh; none for a mesh that is not known.
pub open spec fn mesh_annotations(mesh: Seq<char>) -> Seq<char> {
    if mesh == "istio"@ {
        ISTIO_ANNOTATION@
    } else if mesh == "linkerd"@ {
        LINKERD_ANNOTATION@
    } else {
        ""@
    }
}

/// The content of the build descriptor for the project's language.
pub fn generate_dockerfile_content(config: &MeshstackConfig) -> (r: String)
    ensures
        r@ == dockerfile_for(config@.language),
{
    let language = config.language.as_str();
    if same_text(language, "rust") {
        String::from_str(DOCKERFILE_RUST)
    } else if same_text(language, "node") || same_text(language, "javascript") {
        String::from_str(DOCKERFILE_NODE)
    } else if same_text(language, "python") {
        String::from_str(DOCKERFILE_PYTHON)
    } else if same_text(language, "go") {
        String::from_str(DOCKERFILE_GO)
    } else {
        String::from_str(DOCKERFILE_GENERIC)
    }
}

fn annotations_for(mesh: &str) -> (r: &'static str)
    ensures
        r@ == mesh_annotations(mesh@),
{
    if same_text(mesh, "istio") {
        ISTIO_ANNOTATION
    } else if same_text(mesh, "linkerd") {
        LINKERD_ANNOTATION
    } else {
        ""
    }
}

/// The chart descriptor of a service.
pub open spec fn chart_yaml(service: Seq<char>) -> Seq<char> {
    CHART_1@ + service + CHART_2@ + service + CHART_3@
}

/// The content of the chart descriptor of a service.
pub fn generate_chart_yaml(service_name: &str) -> (r: String)
    ensures
        r@ == chart_yaml(service_name@),
{
    let mut r = String::from_str(CHART_1);
    r.append(service_name);
    r.append(CHART_2);
    r.append(service_name);
    r.append(CHART_3);
    r
}

/// The deployment template of a service in a project that uses the given mesh.
pub open spec fn deployment_yaml(service: Seq<char>, mesh: Seq<char>) -> Seq<char> {
    DEPLOYMENT_1@ + service + DEPLOYMENT_2@ + service + DEPLOYMENT_3@ + service + DEPLOYMENT_4@ + mesh_annotations(mesh) + DEPLOYMENT_5@ + service + DEPLOYMENT_6@
}

/// The content of the deployment template of a service.
pub fn generate_deployment_yaml(service_name: &str, config: &MeshstackConfig) -> (r: String)
    ensures
        r@ == deployment_yaml(service_name@, config@.service_mesh),
{
    let annotations = annotations_for(config.service_mesh.as_str());
    let mut r = String::from_str(DEPLOYMENT_1);
    r.append(service_name);
    r.append(DEPLOYMENT_2);
    r.append(service_name);
    r.append(DEPLOYMENT_3);
    r.append(service_name);
    r.append(DEPLOYMENT_4);
    r.append(annotations);
    r.append(DEPLOYMENT_5);
    r.append(service_name);
    r.append(DEPLOYMENT_6);
    r
}

/// The service template of a service.
pub open spec fn service_yaml(service: Seq<char>) -> Seq<char> {
    SERVICE_1@ + service + SERVICE_2@ + service + SERVICE_3@ + service + SERVICE_4@
}

/// The content of the service template of a service.
pub fn generate_service_yaml(service_name: &str) -> (r: String)
    ensures
        r@ == service_yaml(service_name@),
{
    let mut r = String::from_str(SERVICE_1);
    r.append(service_name);
    r.append(SERVICE_2);
    r.append(service_name);
    r.append(SERVICE_3);
    r.append(service_name);
    r.append(SERVICE_4);
    r
}

/// The default chart values of a service.
pub open spec fn values_yaml(service: Seq<char>) -> Seq<char> {
    VALUES_1@ + service + VALUES_2@ + service + VALUES_3@
}

/// The content of the default chart values of a service.
pub fn generate_values_yaml(service_name: &str, _config: &MeshstackConfig) -> (r: String)
    ensures
        r@ == values_yaml(service_name@),
{
    let mut r = String::from_str(VALUES_1);
    r.append(service_name);
    r.append(VALUES_2);
    r.append(service_name);
    r.append(VALUES_3);
    r
}

/// The package manifest of a Rust service.
pub open spec fn cargo_toml(service: Seq<char>) -> Seq<char> {
    CARGO_1@ + service + CARGO_2@
}

/// The content of the package manifest of a Rust service.
pub fn generate_cargo_toml(service_name: &str) -> (r: String)
    ensures
        r@ == cargo_toml(service_name@),
{
    let mut r = String::from_str(CARGO_1);
    r.append(service_name);
    r.append(CARGO_2);
    r
}

/// The package manifest of a Node service.
pub open spec fn package_json(service: Seq<char>) -> Seq<char> {
    PACKAGE_1@ + service + PACKAGE_2@
}

/// The content of the package manifest of a Node service.
pub fn generate_package_json(service_name: &str) -> (r: String)
    ensures
        r@ == package_json(service_name@),
{
    let mut r = String::from_str(PACKAGE_1);
    r.append(service_name);
    r.append(PACKAGE_2);
    r
}

/// The GitHub Actions workflow of a project that uses the given mesh.
pub open spec fn workflow_yaml(mesh: Seq<char>) -> Seq<char> {
    WORKFLOW_1@ + mesh + WORKFLOW_2@ + mesh + WORKFLOW_3@
}

/// The content of the GitHub Actions workflow.
pub fn generate_workflow_yaml(mesh: &str) -> (r: String)
    ensures
        r@ == workflow_yaml(mesh@),
{
    let mut r = String::from_str(WORKFLOW_1);
    r.append(mesh);
    r.append(WORKFLOW_2);
    r.append(mesh);
    r.append(WORKFLOW_3);
    r
}

/// The ArgoCD application of a project.
pub open spec fn argocd_application(project: Seq<char>) -> Seq<char> {
    ARGOCD_1@ + project + ARGOCD_2@
}

/// The content of the ArgoCD application manifest.
pub fn generate_argocd_application(project_name: &str) -> (r: String)
    ensures
        r@ == argocd_application(project_name@),
{
    let mut r = String::from_str(ARGOCD_1);
    r.append(project_name);
    r.append(ARGOCD_2);
    r
}

/// The environments that get an overlay file.
#[derive(Clone, Copy, Debug, PartialEq, Eq, Structural)]
pub enum Environment {
    Development,
    Production,
    Staging,
}

impl Environment {
    /// The name of the environment inside its overlay.
    pub open spec fn name(self) -> Seq<char> {
        match self {
            Environment::Development => "development"@,
            Environment::Production => "production"@,
            Environment::Staging => "staging"@,
        }
    }

    /// The name in capitals, for the overlay's heading.
    pub open spec fn heading(self) -> Seq<char> {
        match self {
            Environment::Development => "DEVELOPMENT"@,
            Environment::Production => "PRODUCTION"@,
            Environment::Staging => "STAGING"@,
        }
    }

    /// The overlay file of the environment.
    pub open spec fn file(self) -> Seq<char> {
        match self {
            Environment::Development => "dev-values.yaml"@,
            Environment::Production => "prod-values.yaml"@,
            Environment::Staging => "staging-values.yaml"@,
        }
    }

    /// The name of the overlay file of the environment.
    pub fn file_name(self) -> (r: &'static str)
        ensures
            r@ == self.file(),
    {
        match self {
            Environment::Development => "dev-values.yaml",
            Environment::Production => "prod-values.yaml",
            Environment::Staging => "staging-values.yaml",
        }
    }
}

/// The overlay of an environment: production gets doubled resources and three
/// replicas, the others the base resources and one replica.
pub open spec fn overlay_yaml(env: Environment) -> Seq<char> {
    let production = env == Environment::Production;
    OVERLAY_1@ + env.heading() + OVERLAY_2@ + env.name() + OVERLAY_3@ + env.name() + OVERLAY_4@ + (if production {
        "1000m"@
    } else {
        "500m"@
    }) + OVERLAY_5@ + (if production {
        "1Gi"@
    } else {
        "512Mi"@
    }) + OVERLAY_6@ + (if production {
        "500m"@
    } else {
        "250m"@
    }) + OVERLAY_7@ + (if production {
        "512Mi"@
    } else {
        "256Mi"@
    }) + OVERLAY_8@ + env.name() + OVERLAY_9@ + (if production {
        "3"@
    } else {
        "1"@
    }) + OVERLAY_10@
}

/// The content of the overlay file of an environment.
pub fn generate_overlay_yaml(env: Environment) -> (r: String)
    ensures
        r@ == overlay_yaml(env),
{
    let (name, heading) = match env {
        Environment::Development => ("development", "DEVELOPMENT"),
        Environment::Production => ("production", "PRODUCTION"),
        Environment::Staging => ("staging", "STAGING"),
    };
    let production = match env {
        Environment::Production => true,
        _ => false,
    };
    let cpu_limit = if production { "1000m" } else { "500m" };
    let memory_limit = if production { "1Gi" } else { "512Mi" };
    let cpu_request = if production { "500m" } else { "250m" };
    let memory_request = if production { "512Mi" } else { "256Mi" };
    let replicas = if production { "3" } else { "1" };
    let mut r = String::from_str(OVERLAY_1);
    r.append(heading);
    r.append(OVERLAY_2);
    r.append(name);
    r.append(OVERLAY_3);
    r.append(name);
    r.append(OVERLAY_4);
    r.append(cpu_limit);
    r.append(OVERLAY_5);
    r.append(memory_limit);
    r.append(OVERLAY_6);
    r.append(cpu_request);
    r.append(OVERLAY_7);
    r.append(memory_request);
    r.append(OVERLAY_8);
    r.append(name);
    r.append(OVERLAY_9);
    r.append(replicas);
    r.append(OVERLAY_10);
    r
}

} // verus!
