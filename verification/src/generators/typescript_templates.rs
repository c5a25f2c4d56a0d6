//! The texts of the files of a TypeScript project.

use vstd::prelude::*;

verus! {

/// Part 1 of the package manifest; the project name stands between the parts.
pub const PACKAGE_0: &'static str = r#"{
  "name": ""#;

/// Part 2 of the package manifest; the project name stands between the parts.
pub const PACKAGE_1: &'static str = r#"",
  "version": "0.1.0",
  "description": "MCP (Model Context Protocol) server",
  "type": "module",
  "main": "build/index.js",
  "bin": {
    ""#;

/// Part 3 of the package manifest; the project name stands between the parts.
pub const PACKAGE_2: &'static str = r#"": "./build/index.js"
  },
  "scripts": {
    "start": "node build/index.js",
    "dev": "nodemon --exec node --loader ts-node/esm src/index.ts",
    "build": "tsc && chmod +x build/index.js"
  },
  "dependencies": {
    "@modelcontextprotocol/sdk": "^1.0.0",
    "zod": "^3.22.4"
  },
  "devDependencies": {
    "@types/node": "^20.10.0",
    "nodemon": "^3.0.2",
    "ts-node": "^10.9.2",
    "typescript": "^5.3.2"
  },
  "engines": {
    "node": ">=16.0.0"
  }
}"#;

/// The compiler configuration.
pub const TSCONFIG: &'static str = r#"{
  "compilerOptions": {
    "target": "ES2022",
    "module": "Node16",
    "moduleResolution": "Node16",
    "outDir": "./build",
    "rootDir": "./src",
    "strict": true,
    "esModuleInterop": true,
    "skipLibCheck": true,
    "forceConsistentCasingInFileNames": true
  },
  "include": ["src/**/*"],
  "exclude": ["node_modules"]
}"#;

/// The ignore list.
pub const GITIGNORE: &'static str = r#"# Dependencies
node_modules/
.pnp
.pnp.js
.yarn/install-state.gz

# Build outputs
build/
dist/
out/
.next/
.nuxt/
.vuepress/dist

# Environment variables
.env
.env.local
.env.development.local
.env.test.local
.env.production.local

# Logs
logs/
*.log
npm-debug.log*
yarn-debug.log*
yarn-error.log*
pnpm-debug.log*

# Testing
coverage/
.nyc_output/

# Editor directories and files
.idea/
.vscode/
*.suo
*.ntvs*
*.njsproj
*.sln
*.sw?
.DS_Store

# TypeScript specific
*.tsbuildinfo
.tscache/

# MCP specific
mcp_debug_output/
claude_config_backup.json

# Local development
local_test/
temp/
notes/
.turbo
.vercel
.cache/
"#;

/// The formatter configuration.
pub const PRETTIERRC: &'static str = r#"{
  "semi": true,
  "trailingComma": "all",
  "singleQuote": true,
  "printWidth": 100,
  "tabWidth": 2
}"#;

/// What the formatter leaves alone.
pub const PRETTIERIGNORE: &'static str = r#"node_modules/
dist/
build/
coverage/
.next/
"#;

/// The starter server source.
pub const SERVER: &'static str = r#"#!/usr/bin/env node
import { McpServer } from "@modelcontextprotocol/sdk/server/mcp.js";
import { StdioServerTransport } from "@modelcontextprotocol/sdk/server/stdio.js";
import { z } from "zod";

const NWS_API_BASE = "https://api.weather.gov";
const USER_AGENT = "weather-app/1.0";

// Create server instance
const server = new McpServer({
  name: "weather",
  version: "1.0.0",
});

// Helper function for making NWS API requests
async function makeNWSRequest<T>(url: string): Promise<T | null> {
  const headers = {
    "User-Agent": USER_AGENT,
    Accept: "application/geo+json",
  };

  try {
    const response = await fetch(url, { headers });
    if (!response.ok) {
      throw new Error(`HTTP error! status: ${response.status}`);
    }
    return (await response.json()) as T;
  } catch (error) {
    console.error("Error making NWS request:", error);
    return null;
  }
}

interface AlertFeature {
  properties: {
    event?: string;
    areaDesc?: string;
    severity?: string;
    status?: string;
    headline?: string;
    description?: string;
    instruction?: string;
  };
}

// Format alert data
function formatAlert(feature: AlertFeature): string {
  const props = feature.properties;
  return [
    `Event: ${props.event || "Unknown"}`,
    `Area: ${props.areaDesc || "Unknown"}`,
    `Severity: ${props.severity || "Unknown"}`,
    `Description: ${props.description?.substring(0, 200) || "No description"}...`,
    `Instructions: ${props.instruction || "No specific instructions provided"}`,
    "---",
  ].join("\n");
}

interface ForecastPeriod {
  name?: string;
  temperature?: number;
  temperatureUnit?: string;
  windSpeed?: string;
  windDirection?: string;
  shortForecast?: string;
  detailedForecast?: string;
}

interface AlertsResponse {
  features: AlertFeature[];
}

interface PointsResponse {
  properties: {
    forecast?: string;
  };
}

interface ForecastResponse {
  properties: {
    periods: ForecastPeriod[];
  };
}

// Register weather tools
server.tool(
  "get-alerts",
  "Get weather alerts for a state",
  {
    state: z.string().length(2).describe("Two-letter state code (e.g. CA, NY)"),
  },
  async ({ state }) => {
    const stateCode = state.toUpperCase();
    const alertsUrl = `${NWS_API_BASE}/alerts/active/area/${stateCode}`;
    const alertsData = await makeNWSRequest<AlertsResponse>(alertsUrl);

    if (!alertsData) {
      return {
        content: [
          {
            type: "text",
            text: "Failed to retrieve alerts data",
          },
        ],
      };
    }

    const features = alertsData.features || [];
    if (features.length === 0) {
      return {
        content: [
          {
            type: "text",
            text: `No active alerts for ${stateCode}`,
          },
        ],
      };
    }

    const formattedAlerts = features.map(formatAlert);
    const alertsText = `Active alerts for ${stateCode}:\n\n${formattedAlerts.join("\n")}`;

    return {
      content: [
        {
          type: "text",
          text: alertsText,
        },
      ],
    };
  },
);

server.tool(
  "get-forecast",
  "Get weather forecast for a location",
  {
    latitude: z.number().min(-90).max(90).describe("Latitude of the location"),
    longitude: z.number().min(-180).max(180).describe("Longitude of the location"),
  },
  async ({ latitude, longitude }) => {
    // Get grid point data
    const pointsUrl = `${NWS_API_BASE}/points/${latitude.toFixed(4)},${longitude.toFixed(4)}`;
    const pointsData = await makeNWSRequest<PointsResponse>(pointsUrl);

    if (!pointsData) {
      return {
        content: [
          {
            type: "text",
            text: `Failed to retrieve grid point data for coordinates: ${latitude}, ${longitude}. This location may not be supported by the NWS API (only US locations are supported).`,
          },
        ],
      };
    }

    const forecastUrl = pointsData.properties?.forecast;
    if (!forecastUrl) {
      return {
        content: [
          {
            type: "text",
            text: "Failed to get forecast URL from grid point data",
          },
        ],
      };
    }

    // Get forecast data
    const forecastData = await makeNWSRequest<ForecastResponse>(forecastUrl);
    if (!forecastData) {
      return {
        content: [
          {
            type: "text",
            text: "Failed to retrieve forecast data",
          },
        ],
      };
    }

    const periods = forecastData.properties?.periods || [];
    if (periods.length === 0) {
      return {
        content: [
          {
            type: "text",
            text: "No forecast periods available",
          },
        ],
      };
    }

    // Format forecast periods
    const formattedForecast = periods.slice(0, 5).map((period: ForecastPeriod) =>
      [
        `${period.name || "Unknown"}:`,
        `Temperature: ${period.temperature || "Unknown"}°${period.temperatureUnit || "F"}`,
        `Wind: ${period.windSpeed || "Unknown"} ${period.windDirection || ""}`,
        `Forecast: ${period.detailedForecast || "No forecast available"}`,
        "---",
      ].join("\n"),
    );

    const forecastText = `Forecast for ${latitude}, ${longitude}:\n\n${formattedForecast.join("\n")}`;

    return {
      content: [
        {
          type: "text",
          text: forecastText,
        },
      ],
    };
  },
);

async function main() {
  const transport = new StdioServerTransport();
  await server.connect(transport);
  console.error("Weather MCP Server running on stdio");
}

main().catch((error) => {
  console.error("Fatal error in main():", error);
  process.exit(1);
});
"#;

/// Part 1 of the README; the project name or the package manager stands between the parts.
pub const README_0: &'static str = r#"# "#;

/// Part 2 of the README; the project name or the package manager stands between the parts.
pub const README_1: &'static str = r#"

A Model Context Protocol (MCP) server implementation.

## About

This project implements an MCP server that provides weather information via the National Weather Service API. It demonstrates how to create a server that can be used with MCP compatible desktop clients.

## Getting Started

### Prerequisites

- Node.js 16 or newer
- "#;

/// Part 3 of the README; the project name or the package manager stands between the parts.
pub const README_2: &'static str = r#" (package manager)

### Installation

```bash
# Install dependencies
"#;

/// Part 4 of the README; the project name or the package manager stands between the parts.
pub const README_3: &'static str = r#" install
```

### Building the Server

```bash
# Build the TypeScript code
"#;

/// Part 5 of the README; the project name or the package manager stands between the parts.
pub const README_4: &'static str = r#" run build
```

### Running the Server

For development:
```bash
# Run in development mode with hot reload
"#;

/// Part 6 of the README; the project name or the package manager stands between the parts.
pub const README_5: &'static str = r#" run dev
```

For desktop client integration, you'll need to add the server to your client's configuration. Open `claude_desktop_config.json` in the client's folder under `~/Library/Application Support/` and add:

```json
{
  "mcpServers": {
    "weather": {
      "command": "node",
      "args": [
        "/ABSOLUTE/PATH/TO/"#;

/// Part 7 of the README; the project name or the package manager stands between the parts.
pub const README_6: &'static str = r#"/build/index.js"
      ]
    }
  }
}
```

Replace `/ABSOLUTE/PATH/TO/"#;

/// Part 8 of the README; the project name or the package manager stands between the parts.
pub const README_7: &'static str = r#"` with the absolute path to your project.

## Available Tools

This MCP server provides the following tools:

- **get-alerts**: Get active weather alerts for a US state
  - Parameters: `state` (two-letter state code)

- **get-forecast**: Get weather forecast for a location
  - Parameters: `latitude`, `longitude`

## Example Queries

After connecting your server to a desktop client, you can ask questions like:

- "What's the weather in Sacramento?"
- "What are the active weather alerts in California?"
- "Tell me the forecast for New York (40.7128, -74.0060)"

## License

MIT
"#;

} // verus!
